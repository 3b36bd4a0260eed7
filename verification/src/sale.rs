//! Token sales: their parameters, their life between two blocks, and the
//! state of a token's offering that follows from them.

use vstd::prelude::*;
use crate::error::Error;
use crate::token::TokenData;
use crate::vesting::{lemma_from_params_total, saturating_block_add};
use crate::vesting::{VestingSchedule, VestingScheduleParams};
use crate::{Balance, BlockNumber, JoyBalance};

verus! {

#[derive(Clone, Debug, PartialEq, Eq)]
pub struct TokenSaleParams<AccountId> {
    /// Account that acts as the source of the tokens on sale
    pub tokens_source: AccountId,
    /// Token's unit price in JOY
    pub unit_price: JoyBalance,
    /// Number of tokens on sale
    pub upper_bound_quantity: Balance,
    /// Optional block in the future when the sale should start (by default: starts immediately)
    pub starts_at: Option<BlockNumber>,
    /// Sale duration in blocks
    pub duration: BlockNumber,
    /// Optional vesting schedule parameters for all tokens on sale
    pub vesting_schedule_params: Option<VestingScheduleParams>,
    /// Optional total sale purchase amount cap per member
    pub cap_per_member: Option<Balance>,
    /// Optional sale metadata
    pub metadata: Option<Vec<u8>>,
}

#[derive(Clone, Debug, PartialEq, Eq)]
pub struct TokenSale<AccountId> {
    /// Token's unit price in JOY
    pub unit_price: JoyBalance,
    /// Number of tokens still on sale (if any)
    pub quantity_left: Balance,
    /// Account that acts as the source of the tokens on sale
    pub tokens_source: AccountId,
    /// Block at which the sale started / will start
    pub start_block: BlockNumber,
    /// Sale duration (in blocks)
    pub duration: BlockNumber,
    /// Optional vesting schedule parameters for all tokens on sale
    pub vesting_schedule_params: Option<VestingScheduleParams>,
    /// Optional total sale purchase amount cap per member
    pub cap_per_member: Option<Balance>,
}

impl<AccountId> TokenSaleParams<AccountId> {
    /// The block at which a sale with these parameters starts, when it is
    /// created at `current_block`.
    pub open spec fn start_block(&self, current_block: BlockNumber) -> BlockNumber {
        match self.starts_at {
            Some(block) => block,
            None => current_block,
        }
    }

    /// The first reason, if any, for which no sale can be created from these
    /// parameters at `current_block`.
    pub open spec fn validation_error(&self, current_block: BlockNumber) -> Option<Error> {
        if self.start_block(current_block) < current_block {
            Some(Error::SaleStartingBlockInThePast)
        } else if self.duration == 0 {
            Some(Error::SaleDurationIsZero)
        } else if self.upper_bound_quantity == 0 {
            Some(Error::SaleUpperBoundQuantityIsZero)
        } else if self.cap_per_member == Some(0u128) {
            Some(Error::SaleCapPerMemberIsZero)
        } else if self.unit_price == 0 {
            Some(Error::SaleUnitPriceIsZero)
        } else {
            None
        }
    }

    /// The sale that these parameters describe.
    pub open spec fn sale(&self, current_block: BlockNumber) -> TokenSale<AccountId> {
        TokenSale {
            start_block: self.start_block(current_block),
            duration: self.duration,
            unit_price: self.unit_price,
            quantity_left: self.upper_bound_quantity,
            vesting_schedule_params: self.vesting_schedule_params,
            tokens_source: self.tokens_source,
            cap_per_member: self.cap_per_member,
        }
    }
}

impl<AccountId> TokenSale<AccountId> {
    /// The sale that `params` describe, or the first of these errors:
    /// the start lies before `current_block`; the duration, the quantity, the
    /// cap per member or the unit price is zero.
    pub fn try_from_params(params: TokenSaleParams<AccountId>, current_block: BlockNumber) -> (r:
        Result<Self, Error>)
        ensures
            r == (match params.validation_error(current_block) {
                Some(error) => Err::<Self, Error>(error),
                None => Ok(params.sale(current_block)),
            }),
    {
        let start_block = match params.starts_at {
            Some(block) => block,
            None => current_block,
        };

        if start_block < current_block {
            return Err(Error::SaleStartingBlockInThePast);
        }
        // Ensure sale duration is non-zero
        if params.duration == 0 {
            return Err(Error::SaleDurationIsZero);
        }
        // Ensure upper_bound_quantity is non-zero
        if params.upper_bound_quantity == 0 {
            return Err(Error::SaleUpperBoundQuantityIsZero);
        }
        // Ensure cap_per_member is non-zero
        if let Some(cap) = params.cap_per_member {
            if cap == 0 {
                return Err(Error::SaleCapPerMemberIsZero);
            }
        }
        // Ensure unit_price is non-zero
        if params.unit_price == 0 {
            return Err(Error::SaleUnitPriceIsZero);
        }
        Ok(
            TokenSale {
                start_block,
                duration: params.duration,
                unit_price: params.unit_price,
                quantity_left: params.upper_bound_quantity,
                vesting_schedule_params: params.vesting_schedule_params,
                tokens_source: params.tokens_source,
                cap_per_member: params.cap_per_member,
            },
        )
    }

    /// The first block at which the sale is over.
    pub open spec fn spec_end_block(&self) -> BlockNumber {
        saturating_block_add(self.start_block, self.duration)
    }

    #[verifier::when_used_as_spec(spec_end_block)]
    pub fn end_block(&self) -> (r: BlockNumber)
        ensures
            r == self.spec_end_block(),
    {
        self.start_block.saturating_add(self.duration)
    }

    /// Whether the sale is open at `current_block`.
    pub open spec fn is_active(&self, current_block: BlockNumber) -> bool {
        self.start_block <= current_block < self.spec_end_block()
    }

    pub open spec fn spec_get_vesting_schedule(&self, amount: Balance) -> VestingSchedule {
        match self.vesting_schedule_params {
            None => VestingSchedule {
                linear_vesting_start_block: self.spec_end_block(),
                linear_vesting_duration: 0,
                cliff_amount: amount,
                post_cliff_total_amount: 0,
            },
            Some(params) => VestingSchedule::spec_from_params(self.spec_end_block(), amount, params),
        }
    }

    /// Get sale's vesting_schedule based on purchase amount.
    ///
    /// If the sale has no `vesting_schedule_params` provided, a vesting schedule is constructed
    /// which unlocks all purchased tokens at once at `sale.end_block()`
    ///
    /// If the sale has a `vesting_schedule_params` provided, a vesting schedule is constructed
    /// based on those params, with `init_block = sale.end_block()`
    /// (making `vesting_schedule.linear_vesting_start_block` equal to
    /// `sale.end_block() + sale.vesting_schedule_params.blocks_before_cliff`)
    #[verifier::when_used_as_spec(spec_get_vesting_schedule)]
    pub fn get_vesting_schedule(&self, amount: Balance) -> (r: VestingSchedule)
        ensures
            r == self.spec_get_vesting_schedule(amount),
            r.spec_total_amount() == amount,
    {
        proof {
            lemma_schedule_grants_purchase(*self, amount);
        }
        match self.vesting_schedule_params {
            // Default VestingSchedule: unlock all tokens at once at `sale.end_block()`
            None => VestingSchedule {
                linear_vesting_start_block: self.end_block(),
                linear_vesting_duration: 0,
                cliff_amount: amount,
                post_cliff_total_amount: 0,
            },
            // Vesting schedule constructed from `sale.vesting_schedule_params`
            // with `init_block = sale.end_block()`
            Some(vs) => VestingSchedule::from_params(self.end_block(), amount, vs),
        }
    }
}

/// Represents token's offering state
#[derive(Clone, Debug, PartialEq, Eq)]
pub enum OfferingState<TokenSale> {
    /// Idle state
    Idle,
    /// Upcoming sale state
    UpcomingSale(TokenSale),
    /// Active sale state
    Sale(TokenSale),
    /// state for IBCO, it might get decorated with the JOY reserve
    /// amount for the token
    BondingCurve,
}

impl<TokenSale> Default for OfferingState<TokenSale> {
    fn default() -> (r: Self)
        ensures
            r is Idle,
    {
        OfferingState::Idle
    }
}

/// The offering state that a sale slot gives at `current_block`: upcoming
/// before the sale starts, on sale until it ends, idle after that and where
/// there is no sale.
pub open spec fn offering_state<AccountId>(
    sale: Option<TokenSale<AccountId>>,
    current_block: BlockNumber,
) -> OfferingState<TokenSale<AccountId>> {
    match sale {
        None => OfferingState::Idle,
        Some(sale) => if current_block < sale.start_block {
            OfferingState::UpcomingSale(sale)
        } else if current_block < sale.spec_end_block() {
            OfferingState::Sale(sale)
        } else {
            OfferingState::Idle
        },
    }
}

impl<'a, AccountId> OfferingState<&'a TokenSale<AccountId>> {
    /// The same state, with the sale by value.
    pub open spec fn owned(self) -> OfferingState<TokenSale<AccountId>> {
        match self {
            OfferingState::Idle => OfferingState::Idle,
            OfferingState::UpcomingSale(sale) => OfferingState::UpcomingSale(*sale),
            OfferingState::Sale(sale) => OfferingState::Sale(*sale),
            OfferingState::BondingCurve => OfferingState::BondingCurve,
        }
    }

    /// The offering state of `token` at `current_block`. It is derived from
    /// the sale's two dates every time; a sale that is over gives `Idle`
    /// though it still stands in the token.
    pub fn of<Hash>(token: &'a TokenData<Hash, AccountId>, current_block: BlockNumber) -> (r: Self)
        ensures
            r.owned() == offering_state(token.sale, current_block),
    {
        match &token.sale {
            None => OfferingState::Idle,
            Some(sale) => {
                if current_block < sale.start_block {
                    OfferingState::UpcomingSale(sale)
                } else if current_block >= sale.start_block && current_block
                    < sale.start_block.saturating_add(sale.duration) {
                    OfferingState::Sale(sale)
                } else {
                    OfferingState::Idle
                }
            },
        }
    }

    pub fn ensure_idle_of<Hash>(
        token: &'a TokenData<Hash, AccountId>,
        current_block: BlockNumber,
    ) -> (r: Result<(), Error>)
        ensures
            r == (if offering_state(token.sale, current_block) is Idle {
                Ok::<(), Error>(())
            } else {
                Err(Error::TokenIssuanceNotInIdleState)
            }),
    {
        match Self::of(token, current_block) {
            OfferingState::Idle => Ok(()),
            _ => Err(Error::TokenIssuanceNotInIdleState),
        }
    }

    pub fn ensure_upcoming_sale_of<Hash>(
        token: &'a TokenData<Hash, AccountId>,
        current_block: BlockNumber,
    ) -> (r: Result<&'a TokenSale<AccountId>, Error>)
        ensures
            match r {
                Ok(sale) => offering_state(token.sale, current_block) == OfferingState::UpcomingSale(
                    *sale,
                ),
                Err(error) => error == Error::NoUpcomingSale && !(offering_state(
                    token.sale,
                    current_block,
                ) is UpcomingSale),
            },
    {
        match Self::of(token, current_block) {
            OfferingState::UpcomingSale(sale) => Ok(sale),
            _ => Err(Error::NoUpcomingSale),
        }
    }

    pub fn ensure_sale_of<Hash>(
        token: &'a TokenData<Hash, AccountId>,
        current_block: BlockNumber,
    ) -> (r: Result<&'a TokenSale<AccountId>, Error>)
        ensures
            match r {
                Ok(sale) => offering_state(token.sale, current_block) == OfferingState::Sale(*sale),
                Err(error) => error == Error::NoActiveSale && !(offering_state(
                    token.sale,
                    current_block,
                ) is Sale),
            },
    {
        match Self::of(token, current_block) {
            OfferingState::Sale(sale) => Ok(sale),
            _ => Err(Error::NoActiveSale),
        }
    }
}

impl<Hash, AccountId> TokenData<Hash, AccountId> {
    /// The token with `sale` in its sale slot and the next sale's number
    /// moved on by one.
    pub open spec fn with_new_sale(self, sale: TokenSale<AccountId>) -> Self {
        TokenData {
            sale: Some(sale),
            next_sale_id: if self.next_sale_id < u32::MAX {
                (self.next_sale_id + 1) as u32
            } else {
                u32::MAX
            },
            ..self
        }
    }

    /// The token with `amount` taken off what its sale has left.
    pub open spec fn with_purchase(self, amount: Balance) -> Self {
        match self.sale {
            Some(sale) => TokenData {
                sale: Some(
                    TokenSale { quantity_left: (sale.quantity_left - amount) as Balance, ..sale },
                ),
                ..self
            },
            None => self,
        }
    }

    /// Whether the sale is over at `current_block` with tokens left unsold.
    pub open spec fn has_unsold_tokens(&self, current_block: BlockNumber) -> bool {
        match self.sale {
            Some(sale) => current_block >= sale.spec_end_block() && sale.quantity_left > 0,
            None => false,
        }
    }

    /// Plans or opens a sale. Fails with `TokenIssuanceNotInIdleState` unless
    /// the token is idle at `current_block`, else with what is wrong with
    /// `params`; a failure changes nothing.
    pub fn init_sale(&mut self, params: TokenSaleParams<AccountId>, current_block: BlockNumber) -> (r:
        Result<(), Error>)
        ensures
            r == (if !(offering_state(old(self).sale, current_block) is Idle) {
                Err::<(), Error>(Error::TokenIssuanceNotInIdleState)
            } else {
                match params.validation_error(current_block) {
                    Some(error) => Err(error),
                    None => Ok(()),
                }
            }),
            *final(self) == (if r is Ok {
                old(self).with_new_sale(params.sale(current_block))
            } else {
                *old(self)
            }),
    {
        let idle = match OfferingState::of(&*self, current_block) {
            OfferingState::Idle => true,
            _ => false,
        };
        if !idle {
            return Err(Error::TokenIssuanceNotInIdleState);
        }
        match TokenSale::try_from_params(params, current_block) {
            Err(error) => Err(error),
            Ok(sale) => {
                // == MUTATION SAFE ==
                self.sale = Some(sale);
                self.next_sale_id = self.next_sale_id.saturating_add(1);
                Ok(())
            },
        }
    }

    /// Buys `amount` tokens on the sale that is open at `current_block`, and
    /// returns the vesting schedule under which they are granted. Fails with
    /// `NoActiveSale` where no sale is open, with `NotEnoughTokensOnSale`
    /// where less than `amount` is left; a failure changes nothing.
    pub fn purchase_on_sale(&mut self, amount: Balance, current_block: BlockNumber) -> (r: Result<
        VestingSchedule,
        Error,
    >)
        ensures
            r == (match offering_state(old(self).sale, current_block) {
                OfferingState::Sale(sale) => if amount <= sale.quantity_left {
                    Ok::<VestingSchedule, Error>(sale.spec_get_vesting_schedule(amount))
                } else {
                    Err(Error::NotEnoughTokensOnSale)
                },
                _ => Err(Error::NoActiveSale),
            }),
            *final(self) == (if r is Ok {
                old(self).with_purchase(amount)
            } else {
                *old(self)
            }),
            r matches Ok(schedule) ==> schedule.spec_total_amount() == amount,
    {
        let schedule = match OfferingState::of(&*self, current_block) {
            OfferingState::Sale(sale) => {
                if amount > sale.quantity_left {
                    return Err(Error::NotEnoughTokensOnSale);
                }
                sale.get_vesting_schedule(amount)
            },
            _ => {
                return Err(Error::NoActiveSale);
            },
        };
        // == MUTATION SAFE ==
        match self.sale.take() {
            Some(sale) => {
                self.sale = Some(
                    TokenSale {
                        unit_price: sale.unit_price,
                        quantity_left: sale.quantity_left - amount,
                        tokens_source: sale.tokens_source,
                        start_block: sale.start_block,
                        duration: sale.duration,
                        vesting_schedule_params: sale.vesting_schedule_params,
                        cap_per_member: sale.cap_per_member,
                    },
                );
            },
            None => {},
        }
        Ok(schedule)
    }

    /// Gives back what a sale that is over has left unsold: the account that
    /// the tokens came from and the amount, and the sale slot is cleared.
    /// Where there is no such sale, or nothing left, nothing changes; so a
    /// second call after a recovery finds nothing to recover.
    pub fn recover_unsold_tokens(&mut self, current_block: BlockNumber) -> (r: Option<
        (AccountId, Balance),
    >)
        ensures
            r == (if old(self).has_unsold_tokens(current_block) {
                Some((old(self).sale->0.tokens_source, old(self).sale->0.quantity_left))
            } else {
                None
            }),
            *final(self) == (if old(self).has_unsold_tokens(current_block) {
                TokenData { sale: None, ..*old(self) }
            } else {
                *old(self)
            }),
            !final(self).has_unsold_tokens(current_block),
    {
        let recoverable = match &self.sale {
            Some(sale) => current_block >= sale.end_block() && sale.quantity_left > 0,
            None => false,
        };
        if !recoverable {
            return None;
        }
        match self.sale.take() {
            Some(sale) => Some((sale.tokens_source, sale.quantity_left)),
            None => None,
        }
    }
}

/// The schedule that a purchase is granted holds exactly what was bought.
pub proof fn lemma_schedule_grants_purchase<AccountId>(sale: TokenSale<AccountId>, amount: Balance)
    ensures
        sale.spec_get_vesting_schedule(amount).spec_total_amount() == amount,
{
    match sale.vesting_schedule_params {
        None => {},
        Some(params) => {
            lemma_from_params_total(sale.spec_end_block(), amount, params);
        },
    }
}

/// From its start until its end a sale is open; from its end on the token is
/// idle again, though the sale still stands in it.
///
/// The end is the start plus the duration, capped at the largest block
/// number: at that very block a sale whose end was capped is over.
pub proof fn lemma_sale_lifecycle<AccountId>(sale: TokenSale<AccountId>, current_block: BlockNumber)
    ensures
        sale.start_block <= current_block < sale.spec_end_block() ==> offering_state(
            Some(sale),
            current_block,
        ) == OfferingState::Sale(sale),
        current_block >= sale.spec_end_block() ==> offering_state(Some(sale), current_block)
            is Idle,
        current_block >= sale.start_block + sale.duration ==> offering_state(
            Some(sale),
            current_block,
        ) is Idle,
        sale.start_block + sale.duration <= BlockNumber::MAX ==> sale.spec_end_block()
            == sale.start_block + sale.duration,
{
}

/// A sale created at `current_block` to start at once is open from that
/// block until its end, and the token is idle from its end on.
pub proof fn lemma_created_sale_lifecycle<AccountId>(
    params: TokenSaleParams<AccountId>,
    current_block: BlockNumber,
    later: BlockNumber,
)
    requires
        params.validation_error(current_block) is None,
        params.start_block(current_block) == current_block,
        current_block <= later,
    ensures
        params.sale(current_block).quantity_left == params.upper_bound_quantity,
        later < params.sale(current_block).spec_end_block() ==> offering_state(
            Some(params.sale(current_block)),
            later,
        ) == OfferingState::Sale(params.sale(current_block)),
        later >= params.sale(current_block).spec_end_block() ==> offering_state(
            Some(params.sale(current_block)),
            later,
        ) is Idle,
        current_block + params.duration <= BlockNumber::MAX ==> params.sale(
            current_block,
        ).spec_end_block() == current_block + params.duration,
{
}

/// A sale created without vesting parameters grants schedules that lock the
/// whole purchase until the block before the sale ends, and nothing from the
/// end on.
pub proof fn lemma_default_schedule_unlocks_at_end<AccountId>(
    params: TokenSaleParams<AccountId>,
    current_block: BlockNumber,
    amount: Balance,
)
    requires
        params.validation_error(current_block) is None,
        params.vesting_schedule_params is None,
    ensures
        params.sale(current_block).spec_end_block() >= 1,
        params.sale(current_block).spec_get_vesting_schedule(amount).spec_locks(
            (params.sale(current_block).spec_end_block() - 1) as BlockNumber,
        ) == amount,
        params.sale(current_block).spec_get_vesting_schedule(amount).spec_locks(
            params.sale(current_block).spec_end_block(),
        ) == 0,
{
}

} // verus!
