//! Sequencing of a bundle: the transactions of a list run one after the other
//! on one EVM, all on one chain, and the block only moves forward.

use crate::config::Config;
use crate::errors::{InvalidBlockNumbersError, MultipleChainIdsError, NoURLForChainIdError, Rejection};
use crate::evm::EvmSetup;
use crate::simulation::{evm_setup, fork_url_of, setup_matches, SimulationRequest};
use vstd::prelude::*;

verus! {

/// Seconds by which the clock moves when the block advances.
pub const BLOCK_TIME: u64 = 12;

/// What the items of a bundle are held against: the chain and the block of
/// its first item. In a session the EVM may already stand past that block.
#[derive(Debug, Clone, Copy, PartialEq, Eq, Structural)]
pub struct BundleSequencer {
    pub first_chain_id: u64,
    pub first_block_number: Option<u64>,
    pub stateful: bool,
}

/// What to do with the EVM before an item runs.
#[derive(Debug, Clone, Copy, PartialEq, Eq, Structural)]
pub enum BlockStep {
    /// Run at the block the EVM stands at.
    Stay,
    /// Set the block and the timestamp, then run.
    Advance { block_number: u64, timestamp: u64 },
}

impl BlockStep {
    /// Block at which the item runs, the EVM standing at `current_block` before.
    pub open spec fn block_after(self, current_block: u64) -> u64 {
        match self {
            BlockStep::Stay => current_block,
            BlockStep::Advance { block_number, .. } => block_number,
        }
    }
}

impl BundleSequencer {
    /// The item asks for a block of its own: another than the first item's
    /// and, in a session, another than the one the EVM stands at.
    pub open spec fn is_new_block(self, block_number: Option<u64>, current_block: u64) -> bool {
        block_number != self.first_block_number && (self.stateful ==> block_number != Some(
            current_block,
        ))
    }

    /// The block neither lies before the first item's nor before the one the
    /// EVM stands at. An item without a block lies before every block.
    pub open spec fn in_order(self, block_number: Option<u64>, current_block: u64) -> bool {
        block_number matches Some(block) && block >= current_block && (
        self.first_block_number matches Some(first) ==> block >= first)
    }

    /// The step for an item of the given chain and block.
    pub open spec fn step(
        self,
        chain_id: u64,
        block_number: Option<u64>,
        current_block: u64,
        current_timestamp: u64,
    ) -> Result<BlockStep, Rejection> {
        if chain_id != self.first_chain_id {
            Err(Rejection::MultipleChainIds(MultipleChainIdsError()))
        } else if !self.is_new_block(block_number, current_block) {
            Ok(BlockStep::Stay)
        } else if !self.in_order(block_number, current_block) {
            Err(Rejection::InvalidBlockNumbers(InvalidBlockNumbersError()))
        } else {
            Ok(
                BlockStep::Advance {
                    block_number: block_number->Some_0,
                    timestamp: (current_timestamp + BLOCK_TIME) as u64,
                },
            )
        }
    }

    /// The blocks at which the items run, the EVM standing at `current_block`
    /// before the first; `None` where an item is rejected. The clock has no
    /// part in it.
    pub open spec fn effective_blocks(self, items: Seq<SimulationRequest>, current_block: u64)
        -> Option<Seq<u64>>
        decreases items.len(),
    {
        if items.len() == 0 {
            Some(Seq::empty())
        } else {
            match self.step(items[0].chain_id, items[0].block_number, current_block, 0) {
                Ok(step) => match self.effective_blocks(
                    items.drop_first(),
                    step.block_after(current_block),
                ) {
                    Some(rest) => Some(seq![step.block_after(current_block)] + rest),
                    None => None,
                },
                Err(_) => None,
            }
        }
    }

    /// The sequencer of a bundle, taken from its first item.
    pub fn new(transactions: &Vec<SimulationRequest>, stateful: bool) -> (sequencer:
        BundleSequencer)
        requires
            transactions@.len() > 0,
        ensures
            sequencer.first_chain_id == transactions@[0].chain_id,
            sequencer.first_block_number == transactions@[0].block_number,
            sequencer.stateful == stateful,
    {
        BundleSequencer {
            first_chain_id: transactions[0].chain_id,
            first_block_number: transactions[0].block_number,
            stateful,
        }
    }

    /// The block moves before the item runs.
    pub open spec fn advances(self, chain_id: u64, block_number: Option<u64>, current_block: u64)
        -> bool {
        chain_id == self.first_chain_id && self.is_new_block(block_number, current_block)
            && self.in_order(block_number, current_block)
    }

    /// Decides what happens before `transaction` runs on an EVM that stands at
    /// `current_block` with the clock at `current_timestamp`: the item is
    /// rejected, runs where the EVM stands, or runs after the block has moved
    /// to the item's and the clock by twelve seconds. Where the block moves the
    /// new time must fit in 64 bits.
    pub fn next(&self, transaction: &SimulationRequest, current_block: u64, current_timestamp: u64)
        -> (r: Result<BlockStep, Rejection>)
        requires
            self.advances(transaction.chain_id, transaction.block_number, current_block)
                ==> current_timestamp + BLOCK_TIME <= u64::MAX,
        ensures
            r == self.step(
                transaction.chain_id,
                transaction.block_number,
                current_block,
                current_timestamp,
            ),
    {
        match self.checked_next(transaction, current_block, current_timestamp) {
            Some(r) => r,
            None => Ok(BlockStep::Stay),
        }
    }

    /// As `next`, for every time of the clock: `None` where the block moves
    /// and the new time does not fit in 64 bits.
    pub fn checked_next(
        &self,
        transaction: &SimulationRequest,
        current_block: u64,
        current_timestamp: u64,
    ) -> (r: Option<Result<BlockStep, Rejection>>)
        ensures
            match r {
                Some(step) => step == self.step(
                    transaction.chain_id,
                    transaction.block_number,
                    current_block,
                    current_timestamp,
                ) && (self.advances(transaction.chain_id, transaction.block_number, current_block)
                    ==> current_timestamp + BLOCK_TIME <= u64::MAX),
                None => self.advances(transaction.chain_id, transaction.block_number, current_block)
                    && current_timestamp + BLOCK_TIME > u64::MAX,
            },
    {
        if transaction.chain_id != self.first_chain_id {
            return Some(Err(Rejection::MultipleChainIds(MultipleChainIdsError())));
        }
        if same_block(transaction.block_number, self.first_block_number) {
            return Some(Ok(BlockStep::Stay));
        }
        if self.stateful && same_block(transaction.block_number, Some(current_block)) {
            return Some(Ok(BlockStep::Stay));
        }
        match transaction.block_number {
            Some(block) => {
                let after_first = match self.first_block_number {
                    Some(first) => block >= first,
                    None => true,
                };
                if after_first && block >= current_block {
                    if current_timestamp > u64::MAX - BLOCK_TIME {
                        None
                    } else {
                        Some(
                            Ok(
                                BlockStep::Advance {
                                    block_number: block,
                                    timestamp: current_timestamp + BLOCK_TIME,
                                },
                            ),
                        )
                    }
                } else {
                    Some(Err(Rejection::InvalidBlockNumbers(InvalidBlockNumbersError())))
                }
            },
            None => Some(Err(Rejection::InvalidBlockNumbers(InvalidBlockNumbersError()))),
        }
    }

    /// An item that is let through is on the chain of the first item, and it
    /// runs at a block that is not before the one the EVM stood at. Where the
    /// block moves, it moves to the item's block, which is not before the
    /// first item's, and the clock moves by twelve seconds.
    pub proof fn lemma_step(
        self,
        chain_id: u64,
        block_number: Option<u64>,
        current_block: u64,
        current_timestamp: u64,
    )
        ensures
            match self.step(chain_id, block_number, current_block, current_timestamp) {
                Ok(step) => {
                    &&& chain_id == self.first_chain_id
                    &&& step.block_after(current_block) >= current_block
                    &&& step matches BlockStep::Advance { block_number: block, timestamp } ==> {
                        &&& block_number == Some(block)
                        &&& self.first_block_number matches Some(first) ==> block >= first
                        &&& current_timestamp + 12 <= u64::MAX ==> timestamp == current_timestamp
                            + 12
                    }
                },
                Err(e) => e == Rejection::MultipleChainIds(MultipleChainIdsError()) || e
                    == Rejection::InvalidBlockNumbers(InvalidBlockNumbersError()),
            },
    {
    }

    /// In a bundle that runs to its end every item is on the chain of the
    /// first, and the blocks at which the items run never decrease, from the
    /// block at which the EVM stood before.
    pub proof fn lemma_blocks_non_decreasing(
        self,
        items: Seq<SimulationRequest>,
        current_block: u64,
    )
        requires
            self.effective_blocks(items, current_block) is Some,
        ensures
            self.effective_blocks(items, current_block)->Some_0.len() == items.len(),
            forall|i: int| 0 <= i < items.len() ==> (#[trigger] items[i]).chain_id == self.first_chain_id,
            forall|i: int|
                0 <= i < items.len() ==> current_block <= #[trigger] self.effective_blocks(
                    items,
                    current_block,
                )->Some_0[i],
            forall|i: int, j: int|
                0 <= i <= j < items.len() ==> self.effective_blocks(items, current_block)->Some_0[i]
                    <= self.effective_blocks(items, current_block)->Some_0[j],
        decreases items.len(),
    {
        if items.len() > 0 {
            let step = self.step(items[0].chain_id, items[0].block_number, current_block, 0)->Ok_0;
            let block = step.block_after(current_block);
            let rest = items.drop_first();
            self.lemma_blocks_non_decreasing(rest, block);
            let tail = self.effective_blocks(rest, block)->Some_0;
            let blocks = self.effective_blocks(items, current_block)->Some_0;
            assert(blocks == seq![block] + tail);
            assert forall|i: int| 0 <= i < items.len() implies (#[trigger] items[i]).chain_id
                == self.first_chain_id by {
                if i > 0 {
                    assert(items[i] == rest[i - 1]);
                }
            }
            assert forall|i: int| 0 <= i < items.len() implies current_block
                <= #[trigger] blocks[i] by {
                if i > 0 {
                    assert(blocks[i] == tail[i - 1]);
                }
            }
            assert forall|i: int, j: int| 0 <= i <= j < items.len() implies blocks[i]
                <= blocks[j] by {
                if i > 0 {
                    assert(blocks[i] == tail[i - 1]);
                    assert(blocks[j] == tail[j - 1]);
                } else if j > 0 {
                    assert(blocks[j] == tail[j - 1]);
                }
            }
        }
    }
}

/// Tells whether two optional block numbers are the same.
pub fn same_block(a: Option<u64>, b: Option<u64>) -> (same: bool)
    ensures
        same == (a == b),
{
    match (a, b) {
        (Some(x), Some(y)) => x == y,
        (None, None) => true,
        _ => false,
    }
}

/// How a bundle is simulated: the EVM to build, the chain it must turn out to
/// be on, and the sequencer that its items pass one by one.
#[derive(Debug, Clone, PartialEq, Eq)]
pub struct Bundle {
    pub setup: EvmSetup,
    pub chain_id: u64,
    pub sequencer: BundleSequencer,
}

/// Plans the simulation of a bundle: a fresh EVM at the block of the first
/// item, with its gas limit, and the sequencer for the items.
pub fn simulate_bundle(transactions: &Vec<SimulationRequest>, config: Config) -> (r: Result<
    Bundle,
    Rejection,
>)
    requires
        transactions@.len() > 0,
    ensures
        match fork_url_of(config.fork_url, transactions@[0].chain_id) {
            Some(_) => r is Ok && setup_matches(
                r->Ok_0.setup,
                config,
                transactions@[0].chain_id,
                transactions@[0].block_number,
                transactions@[0].gas_limit,
            ) && r->Ok_0.chain_id == transactions@[0].chain_id && r->Ok_0.sequencer == (
            BundleSequencer {
                first_chain_id: transactions@[0].chain_id,
                first_block_number: transactions@[0].block_number,
                stateful: false,
            }),
            None => r == Err::<Bundle, Rejection>(Rejection::NoUrlForChainId(NoURLForChainIdError)),
        },
{
    let sequencer = BundleSequencer::new(transactions, false);
    let first = &transactions[0];
    match evm_setup(config, first.chain_id, first.block_number, first.gas_limit) {
        Ok(setup) => Ok(Bundle { setup, chain_id: first.chain_id, sequencer }),
        Err(e) => Err(e),
    }
}

} // verus!
