//! The record that the ledger keeps for each token: supply, patronage,
//! transfer policy and the sale that is planned, open or over.

use vstd::prelude::*;
use std::collections::BTreeMap;
use vstd::std_specs::btree::{key_obeys_cmp_spec, spec_btree_map_iter};
use vstd::std_specs::iter::IteratorSpec;
use crate::error::Error;
use crate::fixed_point::{lemma_mul_floor_monotone, mul_floor, rational_approximation};
use crate::fixed_point::{Permill, Perquintill, PERMILL_ACCURACY, PERQUINTILL_ACCURACY};
use crate::sale::TokenSale;
use crate::sums::{keys_of, keys_sum, map_sum, saturated};
use crate::sums::{lemma_entries_cover, lemma_keys_sum_all, lemma_keys_sum_step};
use crate::vesting::saturating_balance_add;
use crate::{Balance, BlockNumber, JoyBalance, TokenSaleId};

verus! {

/// Yearly rate used for patronage info initialization
#[derive(Clone, Copy, Debug, PartialEq, Eq, Structural)]
pub struct YearlyRate(pub Permill);

/// Block rate used for patronage accounting
#[derive(Clone, Copy, Debug, PartialEq, Eq, Structural)]
pub struct BlockRate(pub Perquintill);

/// Block Rate bare minimum impementation
impl BlockRate {
    /// The rate per block that a yearly rate comes to: the yearly parts per
    /// million over a million times the blocks of a year, kept in parts per
    /// quintillion.
    pub open spec fn spec_from_yearly_rate(r: YearlyRate, blocks_per_year: u32) -> BlockRate {
        BlockRate(
            Perquintill(
                rational_approximation(
                    r.0.parts(),
                    (PERMILL_ACCURACY * blocks_per_year) as nat,
                    PERQUINTILL_ACCURACY as nat,
                ) as u64,
            ),
        )
    }

    #[verifier::when_used_as_spec(spec_from_yearly_rate)]
    pub fn from_yearly_rate(r: YearlyRate, blocks_per_year: u32) -> (rate: Self)
        ensures
            rate == BlockRate::spec_from_yearly_rate(r, blocks_per_year),
            rate.0.0 <= PERQUINTILL_ACCURACY,
    {
        let max_accuracy: u64 = PERMILL_ACCURACY as u64;
        BlockRate(
            Perquintill::from_rational_approximation(
                r.0.deconstruct() as u64,
                max_accuracy * (blocks_per_year as u64),
            ),
        )
    }

    /// The fraction accrued over `blocks` blocks at this rate, capped at one
    /// whole.
    pub open spec fn spec_for_period(self, blocks: u64) -> Perquintill {
        if self.0.parts() * blocks <= PERQUINTILL_ACCURACY {
            Perquintill((self.0.parts() * blocks) as u64)
        } else {
            Perquintill(PERQUINTILL_ACCURACY)
        }
    }

    pub fn to_yearly_rate_representation(self, blocks_per_year: u32) -> (r: Perquintill)
        ensures
            r == self.spec_for_period(blocks_per_year as u64),
    {
        self.for_period(blocks_per_year as u64)
    }

    #[verifier::when_used_as_spec(spec_for_period)]
    pub fn for_period(self, blocks: u64) -> (r: Perquintill)
        ensures
            r == self.spec_for_period(blocks),
            r.0 <= PERQUINTILL_ACCURACY,
    {
        match self.0.deconstruct().checked_mul(blocks) {
            Some(parts) => Perquintill::from_parts(parts),
            None => Perquintill::one(),
        }
    }

    pub fn saturating_sub(self, other: Self) -> (r: Self)
        ensures
            r.0.0 == (if self.0.parts() >= other.0.parts() {
                self.0.parts() - other.0.parts()
            } else {
                0
            }),
    {
        BlockRate(self.0.saturating_sub(other.0))
    }
}

/// Patronage information, patronage configuration = set of values for its fields
#[derive(Clone, Copy, Debug, PartialEq, Eq, Structural)]
pub struct PatronageData {
    /// Patronage rate
    pub rate: BlockRate,
    /// Tally count for the outstanding credit before latest patronage config change
    pub unclaimed_patronage_tally_amount: Balance,
    /// Last block the patronage configuration was updated
    pub last_unclaimed_patronage_tally_block: BlockNumber,
}

/// Input parameters describing token transfer policy
#[derive(Clone, Debug, PartialEq, Eq)]
pub enum TransferPolicyParams<WhitelistParams> {
    /// Permissionless
    Permissionless,
    /// Permissioned transfer with whitelist
    Permissioned(WhitelistParams),
}

impl<WhitelistParams> Default for TransferPolicyParams<WhitelistParams> {
    fn default() -> (r: Self)
        ensures
            r is Permissionless,
    {
        Self::Permissionless
    }
}

/// The two possible transfer policies
#[derive(Clone, Debug, PartialEq, Eq)]
pub enum TransferPolicy<Hash> {
    /// Permissionless
    Permissionless,
    /// Permissioned transfer with whitelist commitment
    Permissioned(Hash),
}

// TransferPolicyParams => TransferPolicy conversion
impl<Hash, SingleDataObjectUploadParams> From<
    TransferPolicyParams<WhitelistParams<Hash, SingleDataObjectUploadParams>>,
> for TransferPolicy<Hash> {
    fn from(params: TransferPolicyParams<WhitelistParams<Hash, SingleDataObjectUploadParams>>) -> (r:
        Self) {
        match params {
            TransferPolicyParams::Permissioned(whitelist_params) => {
                Self::Permissioned(whitelist_params.commitment)
            },
            TransferPolicyParams::Permissionless => Self::Permissionless,
        }
    }
}

impl<Hash, SingleDataObjectUploadParams> vstd::std_specs::convert::FromSpecImpl<
    TransferPolicyParams<WhitelistParams<Hash, SingleDataObjectUploadParams>>,
> for TransferPolicy<Hash> {
    open spec fn obeys_from_spec() -> bool {
        true
    }

    open spec fn from_spec(
        params: TransferPolicyParams<WhitelistParams<Hash, SingleDataObjectUploadParams>>,
    ) -> Self {
        transfer_policy_of(params)
    }
}

impl<Hash> Default for TransferPolicy<Hash> {
    fn default() -> (r: Self)
        ensures
            r is Permissionless,
    {
        TransferPolicy::<Hash>::Permissionless
    }
}

/// What describes a data object that is to be stored.
#[derive(Clone, Debug, PartialEq, Eq)]
pub struct DataObjectCreationParameters {
    /// Object size in bytes.
    pub size: u64,
    /// Content identifier of the object.
    pub ipfs_content_id: Vec<u8>,
}

#[derive(Clone, Debug, PartialEq, Eq)]
pub struct SingleDataObjectUploadParams<JoyBalance> {
    pub object_creation_params: DataObjectCreationParameters,
    pub expected_data_size_fee: JoyBalance,
}

#[derive(Clone, Debug, PartialEq, Eq)]
pub struct UploadContext<AccountId, BagId> {
    pub uploader_account: AccountId,
    pub bag_id: BagId,
}

#[derive(Clone, Debug, PartialEq, Eq)]
pub struct WhitelistParams<Hash, SingleDataObjectUploadParams> {
    /// Whitelist merkle root
    pub commitment: Hash,
    /// Optional payload data to upload to storage
    pub payload: Option<SingleDataObjectUploadParams>,
}

#[derive(Clone, Debug, PartialEq, Eq, PartialOrd, Ord)]
pub struct TokenAllocation<Balance, VestingScheduleParams> {
    pub amount: Balance,
    pub vesting_schedule_params: Option<VestingScheduleParams>,
}

/// Default trait for InitialAllocation
impl<VestingScheduleParams> Default for TokenAllocation<Balance, VestingScheduleParams> {
    fn default() -> (r: Self)
        ensures
            r.amount == 0,
            r.vesting_schedule_params is None,
    {
        TokenAllocation { amount: 0, vesting_schedule_params: None }
    }
}

/// Input parameters for token issuance
#[derive(Clone, Debug, PartialEq, Eq)]
pub struct TokenIssuanceParameters<Hash, TokenAllocation, TransferPolicyParams, AddressId: Ord> {
    /// Initial allocation of the token
    pub initial_allocation: BTreeMap<AddressId, TokenAllocation>,
    /// Token Symbol
    pub symbol: Hash,
    /// Initial transfer policy:
    pub transfer_policy: TransferPolicyParams,
    /// Initial Patronage rate
    pub patronage_rate: YearlyRate,
}

/// The amount of each allocation of a table.
pub open spec fn allocated_amounts<AddressId, VestingScheduleParams>(
    allocation: Map<AddressId, TokenAllocation<Balance, VestingScheduleParams>>,
) -> Map<AddressId, nat> {
    allocation.map_values(|a: TokenAllocation<Balance, VestingScheduleParams>| a.amount as nat)
}

/// The bond for `accounts` accounts at `bloat_bond` each, capped at the
/// largest balance. The number of accounts counts by its low 32 bits.
pub open spec fn bond_for_accounts(bloat_bond: JoyBalance, accounts: nat) -> JoyBalance {
    saturated(bloat_bond as nat * (accounts as usize as u32) as nat)
}

fn bond_for(bloat_bond: JoyBalance, accounts: usize) -> (r: JoyBalance)
    ensures
        r == bond_for_accounts(bloat_bond, accounts as nat),
{
    let accounts_len = #[verifier::truncate]
    (accounts as u32);
    match bloat_bond.checked_mul(accounts_len as u128) {
        Some(bond) => bond,
        None => u128::MAX,
    }
}

/// The policy that policy parameters give: a whitelist is kept as its
/// commitment alone.
pub open spec fn transfer_policy_of<Hash, SingleDataObjectUploadParams>(
    params: TransferPolicyParams<WhitelistParams<Hash, SingleDataObjectUploadParams>>,
) -> TransferPolicy<Hash> {
    match params {
        TransferPolicyParams::Permissioned(whitelist_params) => TransferPolicy::Permissioned(
            whitelist_params.commitment,
        ),
        TransferPolicyParams::Permissionless => TransferPolicy::Permissionless,
    }
}

impl<Hash, AddressId: Ord, VestingScheduleParams, SingleDataObjectUploadParams> TokenIssuanceParameters<
    Hash,
    TokenAllocation<Balance, VestingScheduleParams>,
    TransferPolicyParams<WhitelistParams<Hash, SingleDataObjectUploadParams>>,
    AddressId,
> {
    /// The bond that the accounts of the initial allocation cost together.
    pub fn get_initial_allocation_bloat_bond(&self, bloat_bond: JoyBalance) -> (r: JoyBalance)
        requires
            key_obeys_cmp_spec::<AddressId>(),
        ensures
            r == bond_for_accounts(bloat_bond, self.initial_allocation@.len()),
    {
        bond_for(bloat_bond, self.initial_allocation.len())
    }

    pub fn get_whitelist_payload(&self) -> (r: Option<&SingleDataObjectUploadParams>)
        ensures
            match self.transfer_policy {
                TransferPolicyParams::Permissioned(whitelist_params) => match r {
                    Some(payload) => whitelist_params.payload == Some(*payload),
                    None => whitelist_params.payload is None,
                },
                TransferPolicyParams::Permissionless => r is None,
            },
    {
        match &self.transfer_policy {
            TransferPolicyParams::Permissioned(whitelist_params) => whitelist_params.payload.as_ref(),
            _ => None,
        }
    }

    /// The sum of the allocated amounts, capped at the largest balance.
    pub fn total_allocation(&self) -> (r: Balance)
        requires
            key_obeys_cmp_spec::<AddressId>(),
        ensures
            r == saturated(map_sum(allocated_amounts(self.initial_allocation@))),
    {
        let mut total: Balance = 0;
        let ghost weights = allocated_amounts(self.initial_allocation@);
        let ghost entries = spec_btree_map_iter(&self.initial_allocation).remaining();
        let ghost mut n: int = 0;
        for entry in it: self.initial_allocation.iter()
            invariant
                entries.no_duplicates(),
                it.seq() == entries,
                entries == spec_btree_map_iter(&self.initial_allocation).remaining(),
                weights == allocated_amounts(self.initial_allocation@),
                n == it.index(),
                total == saturated(keys_sum(weights, keys_of(entries).take(n))),
        {
            let (_address, allocation) = entry;
            proof {
                lemma_keys_sum_step(weights, keys_of(entries), n);
                assert(self.initial_allocation@.contains_key(*entries[n].0));
                n = n + 1;
            }
            total = total.saturating_add(allocation.amount);
        }
        proof {
            lemma_entries_cover(self.initial_allocation@, entries);
            assert(keys_of(entries).take(n) == keys_of(entries));
            assert(weights.dom() == self.initial_allocation@.dom());
            lemma_keys_sum_all(weights, keys_of(entries));
        }
        total
    }
}

/// Info for the token
#[derive(Clone, Debug, PartialEq, Eq)]
pub struct TokenData<Hash, AccountId> {
    /// Current token's total supply (tokens_issued - tokens_burned)
    pub total_supply: Balance,
    /// Total number of tokens issued
    pub tokens_issued: Balance,
    /// Id of the next token sale
    pub next_sale_id: TokenSaleId,
    /// Current token sale (upcoming / ongoing / ended but w/ remaining tokens to recover)
    pub sale: Option<TokenSale<AccountId>>,
    /// Transfer policy
    pub transfer_policy: TransferPolicy<Hash>,
    /// Symbol used to identify token
    pub symbol: Hash,
    /// Patronage Information
    pub patronage_info: PatronageData,
    /// Account counter
    pub accounts_number: u64,
}

/// `a - b`, or zero where `b` is the larger.
pub open spec fn saturating_balance_sub(a: Balance, b: Balance) -> Balance {
    if a >= b {
        (a - b) as Balance
    } else {
        0
    }
}

/// Token Data implementation
impl<Hash, AccountId> TokenData<Hash, AccountId> {
    /// What is in circulation was issued: the supply never exceeds the
    /// issuance.
    pub open spec fn wf(&self) -> bool {
        self.total_supply <= self.tokens_issued
    }

    // increase total issuance
    pub fn increase_supply_by(&mut self, amount: Balance)
        ensures
            *final(self) == (TokenData {
                tokens_issued: saturating_balance_add(old(self).tokens_issued, amount),
                total_supply: saturating_balance_add(old(self).total_supply, amount),
                ..*old(self)
            }),
            old(self).wf() ==> final(self).wf(),
    {
        self.tokens_issued = self.tokens_issued.saturating_add(amount);
        self.total_supply = self.total_supply.saturating_add(amount);
    }

    // decrease total issuance (use when tokens are burned for any reason)
    pub fn decrease_supply_by(&mut self, amount: Balance)
        ensures
            *final(self) == (TokenData {
                total_supply: saturating_balance_sub(old(self).total_supply, amount),
                ..*old(self)
            }),
            old(self).wf() ==> final(self).wf(),
    {
        self.total_supply = self.total_supply.saturating_sub(amount);
    }

    /// Whether the supply can be decreased by `amount` without running below
    /// zero: the check that goes before a burn.
    pub fn ensure_can_decrease_supply_by(&self, amount: Balance) -> (r: Result<(), Error>)
        ensures
            r == (if amount <= self.total_supply {
                Ok::<(), Error>(())
            } else {
                Err(Error::InsufficientTotalSupplyToDecreaseByAmount)
            }),
    {
        if amount <= self.total_supply {
            Ok(())
        } else {
            Err(Error::InsufficientTotalSupplyToDecreaseByAmount)
        }
    }

    // increment account number
    pub fn increment_accounts_number(&mut self)
        ensures
            *final(self) == (TokenData {
                accounts_number: if old(self).accounts_number < u64::MAX {
                    (old(self).accounts_number + 1) as u64
                } else {
                    u64::MAX
                },
                ..*old(self)
            }),
    {
        self.accounts_number = self.accounts_number.saturating_add(1u64);
    }

    // decrement account number
    pub fn decrement_accounts_number(&mut self)
        ensures
            *final(self) == (TokenData {
                accounts_number: if old(self).accounts_number > 0 {
                    (old(self).accounts_number - 1) as u64
                } else {
                    0
                },
                ..*old(self)
            }),
    {
        self.accounts_number = self.accounts_number.saturating_sub(1u64);
    }

    /// Whether the token can be removed: it has no account left and nothing
    /// in circulation.
    pub fn ensure_can_deissue(&self) -> (r: Result<(), Error>)
        ensures
            r == (if self.accounts_number != 0 {
                Err::<(), Error>(Error::CannotDeissueTokenWithOutstandingAccounts)
            } else if self.total_supply != 0 {
                Err(Error::TokenIssuanceIsNotZero)
            } else {
                Ok(())
            }),
    {
        if self.accounts_number != 0 {
            Err(Error::CannotDeissueTokenWithOutstandingAccounts)
        } else if self.total_supply != 0 {
            Err(Error::TokenIssuanceIsNotZero)
        } else {
            Ok(())
        }
    }

    pub fn set_unclaimed_tally_patronage_at_block(&mut self, amount: Balance, block: BlockNumber)
        ensures
            *final(self) == (TokenData {
                patronage_info: PatronageData {
                    rate: old(self).patronage_info.rate,
                    unclaimed_patronage_tally_amount: amount,
                    last_unclaimed_patronage_tally_block: block,
                },
                ..*old(self)
            }),
    {
        self.patronage_info.last_unclaimed_patronage_tally_block = block;
        self.patronage_info.unclaimed_patronage_tally_amount = amount;
    }

    /// The blocks that have passed at `block` since the tally was last taken.
    pub open spec fn period(&self, block: BlockNumber) -> u64 {
        if block >= self.patronage_info.last_unclaimed_patronage_tally_block {
            (block - self.patronage_info.last_unclaimed_patronage_tally_block) as u64
        } else {
            0
        }
    }

    /// The patronage that is unclaimed at `block`: the fraction of the supply
    /// accrued since the tally was taken, rounded down, and the tally.
    pub open spec fn spec_unclaimed_patronage_at_block(&self, block: BlockNumber) -> Balance {
        saturating_balance_add(
            mul_floor(
                self.patronage_info.rate.spec_for_period(self.period(block)).parts(),
                PERQUINTILL_ACCURACY as nat,
                self.total_supply as nat,
            ) as Balance,
            self.patronage_info.unclaimed_patronage_tally_amount,
        )
    }

    /// Computes: period * rate * supply + tally
    #[verifier::when_used_as_spec(spec_unclaimed_patronage_at_block)]
    pub fn unclaimed_patronage_at_block(&self, block: BlockNumber) -> (r: Balance)
        ensures
            r == self.spec_unclaimed_patronage_at_block(block),
    {
        let blocks = block.saturating_sub(self.patronage_info.last_unclaimed_patronage_tally_block);
        let unclaimed_patronage_percent = self.patronage_info.rate.for_period(blocks as u64);
        unclaimed_patronage_percent.mul_floor(self.total_supply).saturating_add(
            self.patronage_info.unclaimed_patronage_tally_amount,
        )
    }

    /// Replaces the rate at `block`. What has accrued at the old rate is first
    /// moved into the tally, so that nothing is lost or counted twice.
    pub fn set_new_patronage_rate_at_block(&mut self, new_rate: BlockRate, block: BlockNumber)
        ensures
            *final(self) == (TokenData {
                patronage_info: PatronageData {
                    rate: new_rate,
                    unclaimed_patronage_tally_amount: old(self).spec_unclaimed_patronage_at_block(
                        block,
                    ),
                    last_unclaimed_patronage_tally_block: block,
                },
                ..*old(self)
            }),
            final(self).spec_unclaimed_patronage_at_block(block) == old(
                self,
            ).spec_unclaimed_patronage_at_block(block),
    {
        // update tally according to old rate
        self.patronage_info.unclaimed_patronage_tally_amount = self.unclaimed_patronage_at_block(
            block,
        );
        self.patronage_info.last_unclaimed_patronage_tally_block = block;
        self.patronage_info.rate = new_rate;
        proof {
            assert(self.period(block) == 0);
            assert(new_rate.0.parts() * 0 == 0) by (nonlinear_arith);
            assert(0 * self.total_supply as nat == 0) by (nonlinear_arith);
        }
    }

    /// The token after a claim at `block`: what was unclaimed is issued, the
    /// tally is empty and taken at `block`.
    pub open spec fn claimed(self, block: BlockNumber) -> Self {
        let amount = self.spec_unclaimed_patronage_at_block(block);
        TokenData {
            tokens_issued: saturating_balance_add(self.tokens_issued, amount),
            total_supply: saturating_balance_add(self.total_supply, amount),
            patronage_info: PatronageData {
                rate: self.patronage_info.rate,
                unclaimed_patronage_tally_amount: 0,
                last_unclaimed_patronage_tally_block: block,
            },
            ..self
        }
    }

    /// Claims the patronage at `block`: issues what is unclaimed, empties the
    /// tally and returns the amount, which the caller credits to the claimant.
    pub fn claim_patronage(&mut self, block: BlockNumber) -> (amount: Balance)
        ensures
            amount == old(self).spec_unclaimed_patronage_at_block(block),
            *final(self) == old(self).claimed(block),
            final(self).spec_unclaimed_patronage_at_block(block) == 0,
            old(self).wf() ==> final(self).wf(),
    {
        let amount = self.unclaimed_patronage_at_block(block);
        self.increase_supply_by(amount);
        self.set_unclaimed_tally_patronage_at_block(0, block);
        proof {
            lemma_claim_resets(*old(self), block);
        }
        amount
    }

    /// The token that issuance parameters describe at `current_block`, with
    /// `blocks_per_year` blocks to the year: all that is allocated is issued
    /// and in circulation, no sale, no account yet, an empty tally.
    pub fn from_params<VestingScheduleParams, SingleDataObjectUploadParams>(
        params: TokenIssuanceParameters<
            Hash,
            TokenAllocation<Balance, VestingScheduleParams>,
            TransferPolicyParams<WhitelistParams<Hash, SingleDataObjectUploadParams>>,
            AccountId,
        >,
        current_block: BlockNumber,
        blocks_per_year: u32,
    ) -> (r: Self) where AccountId: Ord
        requires
            key_obeys_cmp_spec::<AccountId>(),
        ensures
            r.symbol == params.symbol,
            r.total_supply == saturated(map_sum(allocated_amounts(params.initial_allocation@))),
            r.tokens_issued == r.total_supply,
            r.sale is None,
            r.transfer_policy == transfer_policy_of(params.transfer_policy),
            r.patronage_info == (PatronageData {
                rate: BlockRate::spec_from_yearly_rate(params.patronage_rate, blocks_per_year),
                unclaimed_patronage_tally_amount: 0,
                last_unclaimed_patronage_tally_block: current_block,
            }),
            r.next_sale_id == 0,
            r.accounts_number == 0,
            r.wf(),
    {
        let patronage_info = PatronageData {
            last_unclaimed_patronage_tally_block: current_block,
            unclaimed_patronage_tally_amount: 0,
            rate: BlockRate::from_yearly_rate(params.patronage_rate, blocks_per_year),
        };

        let total_supply = params.total_allocation();

        TokenData {
            symbol: params.symbol,
            total_supply,
            tokens_issued: total_supply,
            sale: None,
            transfer_policy: TransferPolicy::from(params.transfer_policy),
            patronage_info,
            next_sale_id: 0,
            accounts_number: 0,
        }
    }
}

/// Right after a claim nothing is unclaimed.
pub proof fn lemma_claim_resets<Hash, AccountId>(token: TokenData<Hash, AccountId>, block: BlockNumber)
    ensures
        token.claimed(block).spec_unclaimed_patronage_at_block(block) == 0,
{
    let after = token.claimed(block);
    assert(after.period(block) == 0);
    assert(after.patronage_info.rate.0.parts() * 0 == 0) by (nonlinear_arith);
    assert(after.patronage_info.rate.spec_for_period(0).parts() == 0);
    assert(0 * after.total_supply as nat == 0) by (nonlinear_arith);
}

/// A second claim at the same block changes nothing.
pub proof fn lemma_claim_idempotent<Hash, AccountId>(
    token: TokenData<Hash, AccountId>,
    block: BlockNumber,
)
    ensures
        token.claimed(block).claimed(block) == token.claimed(block),
{
    lemma_claim_resets(token, block);
}

/// With the rate, the supply and the tally fixed, what is unclaimed does not
/// shrink as the blocks go by.
pub proof fn lemma_unclaimed_monotone<Hash, AccountId>(
    token: TokenData<Hash, AccountId>,
    earlier: BlockNumber,
    later: BlockNumber,
)
    requires
        earlier <= later,
    ensures
        token.spec_unclaimed_patronage_at_block(earlier) <= token.spec_unclaimed_patronage_at_block(
            later,
        ),
{
    let rate = token.patronage_info.rate;
    let short = token.period(earlier);
    let long = token.period(later);
    assert(short <= long);
    assert(rate.0.parts() * short <= rate.0.parts() * long) by (nonlinear_arith)
        requires
            short <= long,
    ;
    assert(rate.spec_for_period(short).parts() <= rate.spec_for_period(long).parts());
    lemma_mul_floor_monotone(
        rate.spec_for_period(short).parts(),
        rate.spec_for_period(long).parts(),
        PERQUINTILL_ACCURACY as nat,
        token.total_supply as nat,
        token.total_supply as nat,
    );
    crate::fixed_point::lemma_mul_floor_bounded(
        rate.spec_for_period(short).parts(),
        PERQUINTILL_ACCURACY as nat,
        token.total_supply as nat,
    );
    crate::fixed_point::lemma_mul_floor_bounded(
        rate.spec_for_period(long).parts(),
        PERQUINTILL_ACCURACY as nat,
        token.total_supply as nat,
    );
}

} // verus!
