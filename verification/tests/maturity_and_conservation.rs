use zero_coupon_bond::issuance::{BondError, ZeroCouponBond};

const INITIAL_EXCHANGE_DATE: u64 = 1720100602;
const MATURITY_DATE: u64 = 1727876602;

fn issue(notional_principal: u64, discount: u64, price: u64, number_of_bonds: u64) -> ZeroCouponBond {
    ZeroCouponBond::instantiate_zerocouponbond(
        String::from("PAM"),
        String::from("issuer"),
        String::from("CONTRACT1234"),
        4,
        String::from("USD"),
        INITIAL_EXCHANGE_DATE,
        MATURITY_DATE,
        notional_principal,
        discount,
        String::from("long"),
        price,
        number_of_bonds,
    )
    .expect("terms are valid")
}

#[test]
fn ninety_days_between_the_example_dates() {
    // The example dates lie exactly 90 days apart.
    assert_eq!(MATURITY_DATE - INITIAL_EXCHANGE_DATE, 90 * 86400);
    let bond = issue(1000, 100, 900, 100);
    assert_eq!(bond.check_the_maturity_of_bonds(INITIAL_EXCHANGE_DATE), 90);
    assert_eq!(bond.check_the_maturity_of_bonds(MATURITY_DATE), 0);
}

#[test]
fn day_count_truncates_toward_zero_on_both_sides() {
    let bond = issue(1000, 100, 900, 100);
    assert_eq!(bond.check_the_maturity_of_bonds(MATURITY_DATE - 86399), 0);
    assert_eq!(bond.check_the_maturity_of_bonds(MATURITY_DATE - 86400), 1);
    assert_eq!(bond.check_the_maturity_of_bonds(MATURITY_DATE + 86399), 0);
    assert_eq!(bond.check_the_maturity_of_bonds(MATURITY_DATE + 86400), -1);
}

#[test]
fn concrete_purchase_scenario() {
    let mut bond = issue(1000, 100, 900, 100);
    let (unit, change) = bond.purchase_bond(1000).expect("payment covers the price");
    assert_eq!(unit.amount(), 1);
    assert_eq!(change, 100);
    assert_eq!(bond.collected_balance(), 900);
    assert_eq!(bond.get_bond_details(MATURITY_DATE).amount, 99);
}

#[test]
fn units_are_conserved_across_a_mixed_sequence() {
    let mut bond = issue(100, 0, 400, 5);
    let supply = 5;
    let mut held = Vec::new();

    let vault_units = |b: &ZeroCouponBond| b.get_bond_details(MATURITY_DATE).amount;
    assert_eq!(vault_units(&bond) + 0, supply);

    let (unit, _) = bond.purchase_bond(400).expect("unit available");
    held.push(unit);
    assert_eq!(vault_units(&bond) + held.len() as u64, supply);

    let (unit, _) = bond.purchase_bond(450).expect("unit available");
    held.push(unit);
    assert_eq!(vault_units(&bond) + held.len() as u64, supply);

    let r = bond.purchase_bond(399);
    assert!(matches!(r, Err(BondError::InsufficientPayment)));
    assert_eq!(vault_units(&bond) + held.len() as u64, supply);

    let unit = held.pop().expect("a unit is held");
    let payout = bond.sell_the_bond(unit).expect("reserve covers the payout");
    assert_eq!(payout, 100);
    assert_eq!(vault_units(&bond) + held.len() as u64, supply);

    let (unit, _) = bond.purchase_bond(400).expect("unit available");
    held.push(unit);
    assert_eq!(vault_units(&bond) + held.len() as u64, supply);

    let unit = held.pop().expect("a unit is held");
    let payout = bond.sell_the_bond(unit).expect("reserve covers the payout");
    assert_eq!(payout, 100);
    assert_eq!(vault_units(&bond) + held.len() as u64, supply);
}

#[test]
fn collected_currency_only_leaves_through_redemption() {
    let mut bond = issue(100, 0, 400, 5);
    assert_eq!(bond.collected_balance(), 0);
    bond.purchase_bond(400).expect("unit available").0.amount();
    assert_eq!(bond.collected_balance(), 400);
    let (unit, _) = bond.purchase_bond(400).expect("unit available");
    assert_eq!(bond.collected_balance(), 800);
    bond.sell_the_bond(unit).expect("reserve covers the payout");
    assert_eq!(bond.collected_balance(), 700);
}
