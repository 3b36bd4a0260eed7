use project_token::error::Error;
use project_token::fixed_point::{Permill, Perquintill};
use project_token::sale::{OfferingState, TokenSale, TokenSaleParams};
use project_token::token::{BlockRate, PatronageData, TokenData, TransferPolicy};
use project_token::vesting::{VestingSchedule, VestingScheduleParams};

type Hash = [u8; 32];

fn params() -> TokenSaleParams<u64> {
    TokenSaleParams {
        tokens_source: 11,
        unit_price: 2,
        upper_bound_quantity: 1000,
        starts_at: None,
        duration: 100,
        vesting_schedule_params: None,
        cap_per_member: Some(50),
        metadata: None,
    }
}

fn token() -> TokenData<Hash, u64> {
    TokenData {
        total_supply: 5000,
        tokens_issued: 5000,
        next_sale_id: 0,
        sale: None,
        transfer_policy: TransferPolicy::Permissionless,
        symbol: [7u8; 32],
        patronage_info: PatronageData {
            rate: BlockRate(Perquintill::zero()),
            unclaimed_patronage_tally_amount: 0,
            last_unclaimed_patronage_tally_block: 0,
        },
        accounts_number: 0,
    }
}

#[test]
fn sale_from_valid_params() {
    let sale = TokenSale::try_from_params(params(), 10).unwrap();
    assert_eq!(
        sale,
        TokenSale {
            unit_price: 2,
            quantity_left: 1000,
            tokens_source: 11,
            start_block: 10,
            duration: 100,
            vesting_schedule_params: None,
            cap_per_member: Some(50),
        }
    );
    assert_eq!(sale.end_block(), 110);
    let later = TokenSale::try_from_params(
        TokenSaleParams { starts_at: Some(30), cap_per_member: None, ..params() },
        10,
    )
    .unwrap();
    assert_eq!(later.start_block, 30);
    assert_eq!(later.end_block(), 130);
    let at_once = TokenSale::try_from_params(TokenSaleParams { starts_at: Some(10), ..params() }, 10);
    assert_eq!(at_once.unwrap().start_block, 10);
}

#[test]
fn sale_params_errors() {
    assert_eq!(
        TokenSale::try_from_params(TokenSaleParams { starts_at: Some(9), ..params() }, 10),
        Err(Error::SaleStartingBlockInThePast)
    );
    assert_eq!(
        TokenSale::try_from_params(TokenSaleParams { duration: 0, ..params() }, 10),
        Err(Error::SaleDurationIsZero)
    );
    assert_eq!(
        TokenSale::try_from_params(TokenSaleParams { upper_bound_quantity: 0, ..params() }, 10),
        Err(Error::SaleUpperBoundQuantityIsZero)
    );
    assert_eq!(
        TokenSale::try_from_params(TokenSaleParams { cap_per_member: Some(0), ..params() }, 10),
        Err(Error::SaleCapPerMemberIsZero)
    );
    assert_eq!(
        TokenSale::try_from_params(TokenSaleParams { unit_price: 0, ..params() }, 10),
        Err(Error::SaleUnitPriceIsZero)
    );
}

#[test]
fn sale_params_errors_come_in_order() {
    let all_wrong = TokenSaleParams {
        starts_at: Some(1),
        duration: 0,
        upper_bound_quantity: 0,
        cap_per_member: Some(0),
        unit_price: 0,
        ..params()
    };
    assert_eq!(
        TokenSale::try_from_params(all_wrong.clone(), 10),
        Err(Error::SaleStartingBlockInThePast)
    );
    assert_eq!(
        TokenSale::try_from_params(TokenSaleParams { starts_at: None, ..all_wrong.clone() }, 10),
        Err(Error::SaleDurationIsZero)
    );
    assert_eq!(
        TokenSale::try_from_params(
            TokenSaleParams { starts_at: None, duration: 1, ..all_wrong.clone() },
            10
        ),
        Err(Error::SaleUpperBoundQuantityIsZero)
    );
    assert_eq!(
        TokenSale::try_from_params(
            TokenSaleParams { starts_at: None, duration: 1, upper_bound_quantity: 1, ..all_wrong },
            10
        ),
        Err(Error::SaleCapPerMemberIsZero)
    );
}

#[test]
fn sale_end_block_saturates() {
    let sale = TokenSale::try_from_params(
        TokenSaleParams { starts_at: Some(u32::MAX - 5), ..params() },
        10,
    )
    .unwrap();
    assert_eq!(sale.end_block(), u32::MAX);
}

#[test]
fn default_vesting_schedule_unlocks_at_sale_end() {
    let sale = TokenSale::try_from_params(params(), 10).unwrap();
    let schedule = sale.get_vesting_schedule(77);
    assert_eq!(
        schedule,
        VestingSchedule {
            linear_vesting_start_block: 110,
            linear_vesting_duration: 0,
            cliff_amount: 77,
            post_cliff_total_amount: 0,
        }
    );
    assert_eq!(schedule.locks(sale.end_block() - 1), 77);
    assert_eq!(schedule.locks(sale.end_block()), 0);
    assert_eq!(schedule.total_amount(), 77);
}

#[test]
fn vesting_schedule_from_sale_params_starts_at_sale_end() {
    let vesting = VestingScheduleParams {
        linear_vesting_duration: 40,
        blocks_before_cliff: 5,
        cliff_amount_percentage: Permill::from_percent(25),
    };
    let sale = TokenSale::try_from_params(
        TokenSaleParams { vesting_schedule_params: Some(vesting), ..params() },
        10,
    )
    .unwrap();
    let schedule = sale.get_vesting_schedule(200);
    assert_eq!(
        schedule,
        VestingSchedule {
            linear_vesting_start_block: 115,
            linear_vesting_duration: 40,
            cliff_amount: 50,
            post_cliff_total_amount: 150,
        }
    );
    assert_eq!(schedule.total_amount(), 200);
}

#[test]
fn offering_state_follows_the_sale_dates() {
    let mut t = token();
    assert_eq!(OfferingState::of(&t, 0), OfferingState::Idle);
    assert_eq!(t.init_sale(TokenSaleParams { starts_at: Some(20), ..params() }, 10), Ok(()));
    let sale = t.sale.clone().unwrap();
    assert_eq!(OfferingState::of(&t, 10), OfferingState::UpcomingSale(&sale));
    assert_eq!(OfferingState::of(&t, 19), OfferingState::UpcomingSale(&sale));
    assert_eq!(OfferingState::of(&t, 20), OfferingState::Sale(&sale));
    assert_eq!(OfferingState::of(&t, 119), OfferingState::Sale(&sale));
    assert_eq!(OfferingState::of(&t, 120), OfferingState::Idle);
    assert_eq!(OfferingState::of(&t, u32::MAX), OfferingState::Idle);
    // the sale is not cleared by the passing of time
    assert!(t.sale.is_some());
    let idle: OfferingState<TokenSale<u64>> = OfferingState::default();
    assert_eq!(idle, OfferingState::Idle);
}

#[test]
fn ensure_offering_state() {
    let mut t = token();
    assert_eq!(OfferingState::ensure_idle_of(&t, 0), Ok(()));
    assert_eq!(OfferingState::ensure_sale_of(&t, 0), Err(Error::NoActiveSale));
    assert_eq!(OfferingState::ensure_upcoming_sale_of(&t, 0), Err(Error::NoUpcomingSale));
    t.init_sale(TokenSaleParams { starts_at: Some(20), ..params() }, 10).unwrap();
    let sale = t.sale.clone().unwrap();
    assert_eq!(OfferingState::ensure_upcoming_sale_of(&t, 15), Ok(&sale));
    assert_eq!(OfferingState::ensure_idle_of(&t, 15), Err(Error::TokenIssuanceNotInIdleState));
    assert_eq!(OfferingState::ensure_sale_of(&t, 15), Err(Error::NoActiveSale));
    assert_eq!(OfferingState::ensure_sale_of(&t, 20), Ok(&sale));
    assert_eq!(OfferingState::ensure_idle_of(&t, 20), Err(Error::TokenIssuanceNotInIdleState));
    assert_eq!(OfferingState::ensure_upcoming_sale_of(&t, 20), Err(Error::NoUpcomingSale));
    assert_eq!(OfferingState::ensure_idle_of(&t, 120), Ok(()));
    assert_eq!(OfferingState::ensure_sale_of(&t, 120), Err(Error::NoActiveSale));
}

#[test]
fn init_sale_wants_an_idle_token() {
    let mut t = token();
    assert_eq!(t.init_sale(params(), 10), Ok(()));
    assert_eq!(t.next_sale_id, 1);
    let before = t.clone();
    assert_eq!(t.init_sale(params(), 50), Err(Error::TokenIssuanceNotInIdleState));
    assert_eq!(t, before);
    // even with bad parameters the state comes first
    assert_eq!(
        t.init_sale(TokenSaleParams { duration: 0, ..params() }, 50),
        Err(Error::TokenIssuanceNotInIdleState)
    );
    // once the sale is over a new one may replace it
    assert_eq!(
        t.init_sale(TokenSaleParams { duration: 0, ..params() }, 110),
        Err(Error::SaleDurationIsZero)
    );
    assert_eq!(t, before);
    assert_eq!(t.init_sale(TokenSaleParams { upper_bound_quantity: 5, ..params() }, 110), Ok(()));
    assert_eq!(t.next_sale_id, 2);
    assert_eq!(t.sale.clone().unwrap().quantity_left, 5);
    assert_eq!(t.sale.clone().unwrap().start_block, 110);
}

#[test]
fn sale_lifecycle_and_purchase() {
    let mut t = token();
    t.init_sale(params(), 10).unwrap();
    for now in [10u32, 50, 109] {
        assert!(matches!(OfferingState::of(&t, now), OfferingState::Sale(_)));
    }
    for now in [110u32, 111, u32::MAX] {
        assert_eq!(OfferingState::of(&t, now), OfferingState::Idle);
    }
    let schedule = t.purchase_on_sale(300, 10).unwrap();
    assert_eq!(schedule.total_amount(), 300);
    assert_eq!(t.sale.clone().unwrap().quantity_left, 700);
    let schedule = t.purchase_on_sale(700, 109).unwrap();
    assert_eq!(schedule.total_amount(), 700);
    assert_eq!(schedule.linear_vesting_start_block, 110);
    assert_eq!(t.sale.clone().unwrap().quantity_left, 0);
}

#[test]
fn purchase_errors_change_nothing() {
    let mut t = token();
    assert_eq!(t.purchase_on_sale(1, 10), Err(Error::NoActiveSale));
    t.init_sale(TokenSaleParams { starts_at: Some(20), ..params() }, 10).unwrap();
    let before = t.clone();
    assert_eq!(t.purchase_on_sale(1, 19), Err(Error::NoActiveSale));
    assert_eq!(t.purchase_on_sale(1, 120), Err(Error::NoActiveSale));
    assert_eq!(t.purchase_on_sale(1001, 20), Err(Error::NotEnoughTokensOnSale));
    assert_eq!(t, before);
    assert!(t.purchase_on_sale(1000, 20).is_ok());
    assert_eq!(t.purchase_on_sale(1, 20), Err(Error::NotEnoughTokensOnSale));
}

#[test]
fn unsold_tokens_are_recovered_once() {
    let mut t = token();
    assert_eq!(t.recover_unsold_tokens(10), None);
    t.init_sale(params(), 10).unwrap();
    t.purchase_on_sale(400, 10).unwrap();
    let before = t.clone();
    // not over yet
    assert_eq!(t.recover_unsold_tokens(109), None);
    assert_eq!(t, before);
    assert_eq!(t.recover_unsold_tokens(110), Some((11, 600)));
    assert_eq!(t.sale, None);
    let recovered = t.clone();
    assert_eq!(t.recover_unsold_tokens(110), None);
    assert_eq!(t.recover_unsold_tokens(500), None);
    assert_eq!(t, recovered);
}

#[test]
fn nothing_to_recover_from_a_sale_that_sold_out() {
    let mut t = token();
    t.init_sale(params(), 10).unwrap();
    t.purchase_on_sale(1000, 10).unwrap();
    let before = t.clone();
    assert_eq!(t.recover_unsold_tokens(110), None);
    assert_eq!(t, before);
}
