use stable_fun::stablebond::{
    StablebondData, StablebondError, StablebondMint, StablebondService,
};
use stable_fun::state::AccountId;

fn unique_id(n: u64) -> AccountId {
    AccountId::new(n, n + 1, n + 2, n + 3)
}

// A moment safely before the bond's maturity.
const NOW: i64 = 1_700_000_000;

fn create_test_stablebond() -> StablebondData {
    StablebondData {
        mint: unique_id(20),
        underlying_mint: unique_id(21),
        current_yield: 500_000,           // 5% APY (6 decimals)
        maturity_timestamp: 1735689600,   // 2025-01-01
        total_supply: 1_000_000,
        decimals: 6,
    }
}

#[test]
fn test_value_calculation() {
    let stablebond = create_test_stablebond();
    let price = 1_000_000; // $1.00 (6 decimals)
    let amount = 1_000_000; // 1 token

    let value = StablebondService::calculate_value(amount, &stablebond, price, NOW).unwrap();

    assert!(value > amount); // Value should include yield
}

#[test]
fn test_yield_calculation() {
    let stablebond = create_test_stablebond();
    let amount = 1_000_000; // 1 token

    let yield_amount =
        StablebondService::calculate_accrued_yield(amount, &stablebond, NOW).unwrap();

    assert!(yield_amount > 0);
    assert!(yield_amount < amount); // Yield should be less than principal
}

#[test]
fn yield_value_is_exact() {
    let stablebond = create_test_stablebond();
    // time to maturity: 35_689_600 s
    // 1_000_000 * 500_000 = 5e11; * 35_689_600 = 17_844_800_000_000_000_000;
    // / 31_536_000 then / 1_000_000 floors to 565_854.
    let y = StablebondService::calculate_accrued_yield(1_000_000, &stablebond, NOW).unwrap();
    assert_eq!(y, 565_854);
    let v = StablebondService::calculate_value(1_000_000, &stablebond, 1_000_000, NOW).unwrap();
    assert_eq!(v, 1_000_000 + 565_854);
}

#[test]
fn bond_record_snapshots() {
    let record = StablebondMint {
        authority: unique_id(1),
        underlying_mint: unique_id(2),
        current_yield: 500_000,
        maturity_timestamp: 1735689600,
        supply: 1_000_000,
        decimals: 6,
        last_yield_update: 100,
        next_yield_update: 200,
    };
    let data = StablebondService::get_stablebond_data(&record, unique_id(3));
    assert_eq!(data.mint, unique_id(3));
    assert_eq!(data.underlying_mint, unique_id(2));
    assert_eq!(data.current_yield, 500_000);
    assert_eq!(data.total_supply, 1_000_000);

    let yd = StablebondService::get_yield_data(&record);
    assert_eq!(yd.current_yield, 500_000);
    assert_eq!(yd.last_update, 100);
    assert_eq!(yd.next_update, 200);
}

#[test]
fn bond_validation_names_each_fault() {
    let mut record = StablebondMint {
        authority: unique_id(1),
        underlying_mint: unique_id(2),
        current_yield: 500_000,
        maturity_timestamp: 1735689600,
        supply: 1_000_000,
        decimals: 6,
        last_yield_update: 0,
        next_yield_update: 0,
    };
    assert_eq!(StablebondService::validate_stablebond(&record, NOW), Ok(()));
    assert_eq!(
        StablebondService::validate_stablebond(&record, 1735689600),
        Err(StablebondError::StablebondMatured)
    );
    record.current_yield = 0;
    assert_eq!(
        StablebondService::validate_stablebond(&record, NOW),
        Err(StablebondError::InvalidYieldRate)
    );
    record.current_yield = 500_000;
    record.supply = 0;
    assert_eq!(
        StablebondService::validate_stablebond(&record, NOW),
        Err(StablebondError::InvalidStablebond)
    );
}

#[test]
fn bond_yield_overflow_is_reported() {
    let mut stablebond = create_test_stablebond();
    stablebond.current_yield = u64::MAX;
    assert_eq!(
        StablebondService::calculate_accrued_yield(2, &stablebond, NOW),
        Err(StablebondError::MathOverflow)
    );
}
