//! Vesting schedules: how much of a grant is still locked at a given block.

use vstd::prelude::*;
use crate::fixed_point::{mul_floor, rational_approximation, Permill, PERMILL_ACCURACY};
use crate::fixed_point::{
    lemma_mul_floor_bounded, lemma_rational_approximation_bounded,
    lemma_rational_approximation_exact,
};
use crate::{Balance, BlockNumber, TokenSaleId};

verus! {

/// Source of tokens subject to vesting that were acquired by an account
/// either through purchase or during initial issuance
#[derive(Clone, Copy, Debug, PartialEq, Eq, Structural, PartialOrd, Ord)]
pub enum VestingSource {
    InitialIssuance,
    Sale(TokenSaleId),
}

impl VestingSource {
    /// The integer under which a source is filed: zero for the initial
    /// issuance, one more than the sale's number for a sale. Sources are
    /// ordered as their keys are.
    pub open spec fn spec_key(self) -> u64 {
        match self {
            VestingSource::InitialIssuance => 0,
            VestingSource::Sale(id) => (id + 1) as u64,
        }
    }

    /// The source filed under `key`, where there is one.
    pub open spec fn spec_from_key(key: u64) -> Option<VestingSource> {
        if key == 0 {
            Some(VestingSource::InitialIssuance)
        } else if key <= 0x1_0000_0000 {
            Some(VestingSource::Sale((key - 1) as u32))
        } else {
            None
        }
    }

    #[verifier::when_used_as_spec(spec_key)]
    pub fn key(self) -> (k: u64)
        ensures
            k == self.spec_key(),
            VestingSource::spec_from_key(k) == Some(self),
    {
        match self {
            VestingSource::InitialIssuance => 0,
            VestingSource::Sale(id) => id as u64 + 1,
        }
    }

    #[verifier::when_used_as_spec(spec_from_key)]
    pub fn from_key(key: u64) -> (r: Option<VestingSource>)
        ensures
            r == VestingSource::spec_from_key(key),
            r matches Some(s) ==> s.spec_key() == key,
    {
        if key == 0 {
            Some(VestingSource::InitialIssuance)
        } else if key <= 0x1_0000_0000 {
            Some(VestingSource::Sale((key - 1) as u32))
        } else {
            None
        }
    }
}

#[derive(Clone, Copy, Debug, PartialEq, Eq, Structural)]
pub struct VestingScheduleParams {
    /// Duration of the linear vesting period
    pub linear_vesting_duration: BlockNumber,
    /// Number of blocks before the linear vesting begins
    pub blocks_before_cliff: BlockNumber,
    /// Initial, instantly vested amount once linear vesting begins (percentage of total amount)
    pub cliff_amount_percentage: Permill,
}

#[derive(Clone, Copy, Debug, PartialEq, Eq, Structural)]
pub struct VestingSchedule {
    /// Block at which the linear vesting begins and cliff_amount is unlocked
    pub linear_vesting_start_block: BlockNumber,
    /// Duration of the linear vesting period
    pub linear_vesting_duration: BlockNumber,
    /// Amount instantly unlocked at "linear_vesting_start_block"
    pub cliff_amount: Balance,
    /// Total amount to be vested linearly over "linear_vesting_duration" (after "linear_vesting_start_block")
    pub post_cliff_total_amount: Balance,
}

/// `a + b`, capped at the largest block number.
pub open spec fn saturating_block_add(a: BlockNumber, b: BlockNumber) -> BlockNumber {
    if a + b <= BlockNumber::MAX {
        (a + b) as BlockNumber
    } else {
        BlockNumber::MAX
    }
}

/// `a + b`, capped at the largest balance.
pub open spec fn saturating_balance_add(a: Balance, b: Balance) -> Balance {
    if a + b <= Balance::MAX {
        (a + b) as Balance
    } else {
        Balance::MAX
    }
}

impl VestingSchedule {
    /// The first block at which nothing is locked any more.
    pub open spec fn end_block(&self) -> BlockNumber {
        saturating_block_add(self.linear_vesting_start_block, self.linear_vesting_duration)
    }

    /// The whole grant: what unlocks at the cliff and what vests after it.
    pub open spec fn spec_total_amount(&self) -> Balance {
        saturating_balance_add(self.cliff_amount, self.post_cliff_total_amount)
    }

    pub open spec fn spec_is_finished(&self, b: BlockNumber) -> bool {
        self.end_block() <= b
    }

    /// The share of the post-cliff amount that is still locked at block `b`
    /// of the linear period, in parts per million.
    pub open spec fn remaining_share(&self, b: BlockNumber) -> nat {
        rational_approximation(
            (self.end_block() - b) as nat,
            self.linear_vesting_duration as nat,
            PERMILL_ACCURACY as nat,
        )
    }

    /// The amount still locked at block `b`: the whole grant before the
    /// linear period starts, the remaining share of the post-cliff amount
    /// while it runs, nothing once it is over.
    pub open spec fn spec_locks(&self, b: BlockNumber) -> Balance {
        if b < self.linear_vesting_start_block {
            self.spec_total_amount()
        } else if b < self.end_block() {
            mul_floor(
                self.remaining_share(b),
                PERMILL_ACCURACY as nat,
                self.post_cliff_total_amount as nat,
            ) as Balance
        } else {
            0
        }
    }

    pub open spec fn spec_from_params(
        init_block: BlockNumber,
        amount: Balance,
        params: VestingScheduleParams,
    ) -> VestingSchedule {
        let cliff_amount = mul_floor(
            params.cliff_amount_percentage.parts(),
            PERMILL_ACCURACY as nat,
            amount as nat,
        ) as Balance;
        VestingSchedule {
            linear_vesting_start_block: saturating_block_add(init_block, params.blocks_before_cliff),
            linear_vesting_duration: params.linear_vesting_duration,
            cliff_amount,
            post_cliff_total_amount: (amount - cliff_amount) as Balance,
        }
    }

    /// Construct a vesting schedule from `VestingScheduleParams` and `init_block`
    ///
    /// `init_block` is a block from which to start counting remaining blocks until cliff, making:
    /// `linear_vesting_start_block = init_block + blocks_before_cliff`
    ///
    /// The cliff amount is the given percentage of `amount`, rounded down; the
    /// rest vests linearly.
    #[verifier::when_used_as_spec(spec_from_params)]
    pub fn from_params(init_block: BlockNumber, amount: Balance, params: VestingScheduleParams) -> (r:
        Self)
        ensures
            r == VestingSchedule::spec_from_params(init_block, amount, params),
            r.cliff_amount + r.post_cliff_total_amount == amount,
            r.spec_total_amount() == amount,
    {
        let cliff_amount = params.cliff_amount_percentage.mul_floor(amount);
        VestingSchedule {
            linear_vesting_start_block: init_block.saturating_add(params.blocks_before_cliff),
            linear_vesting_duration: params.linear_vesting_duration,
            cliff_amount,
            post_cliff_total_amount: amount - cliff_amount,
        }
    }

    #[verifier::when_used_as_spec(spec_locks)]
    pub fn locks(&self, b: BlockNumber) -> (r: Balance)
        ensures
            r == self.spec_locks(b),
            r <= self.spec_total_amount(),
            self.spec_is_finished(b) ==> r == 0,
    {
        proof {
            lemma_locks_bounded(*self, b);
        }
        let end_block = self.linear_vesting_start_block.saturating_add(
            self.linear_vesting_duration,
        );
        // Vesting not yet started
        if self.linear_vesting_start_block > b {
            return self.total_amount();
        }
        // Vesting period is ongoing
        if end_block > b {
            let remaining_vesting_blocks = end_block - b;
            let remaining_vesting_percentage = Permill::from_rational_approximation(
                remaining_vesting_blocks as u128,
                self.linear_vesting_duration as u128,
            );
            return remaining_vesting_percentage.mul_floor(self.post_cliff_total_amount);
        }
        // Vesting period has finished
        0
    }

    #[verifier::when_used_as_spec(spec_is_finished)]
    pub fn is_finished(&self, b: BlockNumber) -> (r: bool)
        ensures
            r == self.spec_is_finished(b),
    {
        self.linear_vesting_start_block.saturating_add(self.linear_vesting_duration) <= b
    }

    #[verifier::when_used_as_spec(spec_total_amount)]
    pub fn total_amount(&self) -> (r: Balance)
        ensures
            r == self.spec_total_amount(),
    {
        self.cliff_amount.saturating_add(self.post_cliff_total_amount)
    }
}

/// What is locked never exceeds the grant, and nothing is locked once the
/// schedule is finished.
pub proof fn lemma_locks_bounded(schedule: VestingSchedule, b: BlockNumber)
    ensures
        schedule.spec_locks(b) <= schedule.spec_total_amount(),
        mul_floor(
            schedule.remaining_share(b),
            PERMILL_ACCURACY as nat,
            schedule.post_cliff_total_amount as nat,
        ) <= schedule.post_cliff_total_amount,
        schedule.spec_is_finished(b) ==> schedule.spec_locks(b) == 0,
        schedule.linear_vesting_start_block + schedule.linear_vesting_duration <= b
            ==> schedule.spec_locks(b) == 0,
{
    lemma_rational_approximation_bounded(
        (schedule.end_block() - b) as nat,
        schedule.linear_vesting_duration as nat,
        PERMILL_ACCURACY as nat,
    );
    lemma_mul_floor_bounded(
        schedule.remaining_share(b),
        PERMILL_ACCURACY as nat,
        schedule.post_cliff_total_amount as nat,
    );
}

/// While the linear period runs, and where it is no longer than a million
/// blocks, what is locked is the post-cliff amount by the share of the period
/// that is left, rounded down twice: the share to parts per million, the
/// product to whole tokens.
pub proof fn lemma_locks_linear(schedule: VestingSchedule, b: BlockNumber)
    requires
        schedule.linear_vesting_start_block <= b < schedule.end_block(),
        schedule.linear_vesting_duration <= PERMILL_ACCURACY,
    ensures
        schedule.linear_vesting_duration > 0,
        schedule.spec_locks(b) == (((schedule.end_block() - b) * PERMILL_ACCURACY)
            / schedule.linear_vesting_duration as int * schedule.post_cliff_total_amount)
            / PERMILL_ACCURACY as int,
{
    lemma_rational_approximation_exact(
        (schedule.end_block() - b) as nat,
        schedule.linear_vesting_duration as nat,
        PERMILL_ACCURACY as nat,
    );
    lemma_locks_bounded(schedule, b);
}

/// A schedule built from parameters grants exactly the amount it was built
/// for.
pub proof fn lemma_from_params_total(
    init_block: BlockNumber,
    amount: Balance,
    params: VestingScheduleParams,
)
    ensures
        VestingSchedule::spec_from_params(init_block, amount, params).spec_total_amount() == amount,
        VestingSchedule::spec_from_params(init_block, amount, params).cliff_amount <= amount,
{
    lemma_mul_floor_bounded(
        params.cliff_amount_percentage.parts(),
        PERMILL_ACCURACY as nat,
        amount as nat,
    );
}

} // verus!
