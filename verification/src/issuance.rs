use vstd::prelude::*;

use crate::bucket::{BondBucket, BucketView};
use crate::vault::Vault;

verus! {

/// Seconds in one day, the unit of the maturity computation.
pub const SECONDS_PER_DAY: u64 = 86400;

/// Every way an operation on an issuance can fail. Each failure leaves both
/// vaults unchanged.
#[derive(Clone, Copy, Debug, PartialEq, Eq, Structural)]
pub enum BondError {
    /// Instantiation arguments rejected: the maturity date does not strictly
    /// follow the initial exchange date, or no units would be minted.
    InvalidTerms,
    /// A purchase offered less than the price.
    InsufficientPayment,
    /// A purchase found no unit left in the bond vault.
    SoldOut,
    /// A redemption handed in a bucket of anything but exactly one unit.
    InvalidQuantity,
    /// A redemption handed in a unit minted by a different issuance.
    WrongAsset,
    /// The currency vault cannot cover the redemption payout.
    InsufficientReserve,
}

/// The whole mathematical state of an issuance: the immutable terms, the
/// price per unit, and the two vault balances.
#[verifier::ext_equal]
pub struct BondView {
    pub contract_type: Seq<char>,
    pub contract_role: Seq<char>,
    pub contract_identifier: Seq<char>,
    pub nominal_interest_rate: int,
    pub currency: Seq<char>,
    pub initial_exchange_date: int,
    pub maturity_date: int,
    pub notional_principal: int,
    pub discount: int,
    pub bond_position: Seq<char>,
    pub price: int,
    /// Units in the bond-unit vault.
    pub bonds: int,
    /// Balance of the collected-currency vault.
    pub collected: int,
}

/// Amount paid out for one redeemed unit.
pub open spec fn payout_of(v: BondView) -> int {
    v.notional_principal + v.discount
}

/// Terms are acceptable iff the maturity date strictly follows the initial
/// exchange date and at least one unit is minted. (Amounts are unsigned
/// integers in the smallest currency unit, so a negative price cannot arise.)
pub open spec fn terms_ok(initial_exchange_date: u64, maturity_date: u64, number_of_bonds: u64) -> bool {
    maturity_date > initial_exchange_date && number_of_bonds > 0
}

/// State of a freshly instantiated issuance: the given terms, the full minted
/// supply in the bond vault, and an empty currency vault.
pub open spec fn initial_view(
    contract_type: Seq<char>,
    contract_role: Seq<char>,
    contract_identifier: Seq<char>,
    nominal_interest_rate: u64,
    currency: Seq<char>,
    initial_exchange_date: u64,
    maturity_date: u64,
    notional_principal: u64,
    discount: u64,
    bond_position: Seq<char>,
    price: u64,
    number_of_bonds: u64,
) -> BondView {
    BondView {
        contract_type,
        contract_role,
        contract_identifier,
        nominal_interest_rate: nominal_interest_rate as int,
        currency,
        initial_exchange_date: initial_exchange_date as int,
        maturity_date: maturity_date as int,
        notional_principal: notional_principal as int,
        discount: discount as int,
        bond_position,
        price: price as int,
        bonds: number_of_bonds as int,
        collected: 0,
    }
}

/// A purchase is accepted iff the payment covers the price and a unit remains.
pub open spec fn purchase_accepted(v: BondView, payment: int) -> bool {
    payment >= v.price && v.bonds > 0
}

/// Balances after a purchase attempt: an accepted purchase moves one unit out
/// of the bond vault and `price` into the currency vault, atomically; a
/// rejected one changes nothing.
pub open spec fn purchase_step(v: BondView, payment: int) -> BondView {
    if purchase_accepted(v, payment) {
        BondView { bonds: v.bonds - 1, collected: v.collected + v.price, ..v }
    } else {
        v
    }
}

/// Whether a bucket holds units minted by the issuance in state `v`.
pub open spec fn genuine(v: BondView, b: BucketView) -> bool {
    b.asset == v.contract_identifier
}

/// A redemption is accepted iff exactly one unit of the issuance's own kind
/// comes back and the collected currency covers the payout.
pub open spec fn redeem_accepted(v: BondView, quantity: int, genuine_unit: bool) -> bool {
    quantity == 1 && genuine_unit && v.collected >= payout_of(v)
}

/// Balances after a redemption attempt: an accepted redemption returns the
/// unit to the bond vault (buy-back, not retirement) and pays the payout out
/// of the currency vault, atomically; a rejected one changes nothing.
pub open spec fn redeem_step(v: BondView, quantity: int, genuine_unit: bool) -> BondView {
    if redeem_accepted(v, quantity, genuine_unit) {
        BondView { bonds: v.bonds + 1, collected: v.collected - payout_of(v), ..v }
    } else {
        v
    }
}

/// Signed whole days from `now` to `maturity`, truncated toward zero, so the
/// count is 0 throughout the last day before maturity and throughout the
/// first day past it.
pub open spec fn days_left(maturity: int, now: int) -> int {
    if now <= maturity {
        (maturity - now) / (SECONDS_PER_DAY as int)
    } else {
        -((now - maturity) / (SECONDS_PER_DAY as int))
    }
}

/// One consistent snapshot of the terms, the current unit balance, and the
/// days left to maturity.
#[derive(Debug)]
pub struct BondDetails {
    pub contract_type: String,
    pub contract_role: String,
    pub contract_identifier: String,
    pub nominal_interest_rate: u64,
    pub currency: String,
    pub initial_exchange_date: u64,
    pub maturity_date: u64,
    pub notional_principal: u64,
    pub discount: u64,
    pub bond_position: String,
    pub price: u64,
    pub amount: u64,
    pub maturity_days_left: i64,
}

/// `d` reports exactly the terms and unit balance of `v`, with the day count
/// taken at time `now`.
pub open spec fn details_match(d: BondDetails, v: BondView, now: int) -> bool {
    &&& d.contract_type@ == v.contract_type
    &&& d.contract_role@ == v.contract_role
    &&& d.contract_identifier@ == v.contract_identifier
    &&& d.nominal_interest_rate as int == v.nominal_interest_rate
    &&& d.currency@ == v.currency
    &&& d.initial_exchange_date as int == v.initial_exchange_date
    &&& d.maturity_date as int == v.maturity_date
    &&& d.notional_principal as int == v.notional_principal
    &&& d.discount as int == v.discount
    &&& d.bond_position@ == v.bond_position
    &&& d.price as int == v.price
    &&& d.amount as int == v.bonds
    &&& d.maturity_days_left as int == days_left(v.maturity_date, now)
}

/// One bond issuance: fixed terms, a vault of unsold bond units, and a vault
/// of collected payment currency. The contract identifier doubles as the
/// asset-kind tag of the units this issuance mints.
pub struct ZeroCouponBond {
    contract_type: String,
    contract_role: String,
    contract_identifier: String,
    nominal_interest_rate: u64,
    currency: String,
    initial_exchange_date: u64,
    maturity_date: u64,
    notional_principal: u64,
    discount: u64,
    bond_position: String,
    bonds: Vault,
    collected: Vault,
    price: u64,
}

impl View for ZeroCouponBond {
    type V = BondView;

    closed spec fn view(&self) -> BondView {
        BondView {
            contract_type: self.contract_type@,
            contract_role: self.contract_role@,
            contract_identifier: self.contract_identifier@,
            nominal_interest_rate: self.nominal_interest_rate as int,
            currency: self.currency@,
            initial_exchange_date: self.initial_exchange_date as int,
            maturity_date: self.maturity_date as int,
            notional_principal: self.notional_principal as int,
            discount: self.discount as int,
            bond_position: self.bond_position@,
            price: self.price as int,
            bonds: self.bonds@,
            collected: self.collected@,
        }
    }
}

impl ZeroCouponBond {
    /// Creates an issuance: validates the terms, mints the entire fixed
    /// supply of `number_of_bonds` indivisible units into a new bond vault,
    /// and opens an empty currency vault. No further minting ever happens.
    ///
    /// The bound on `notional_principal + discount` is a machine limit: the
    /// redemption payout must fit the amount type.
    pub fn instantiate_zerocouponbond(
        contract_type: String,
        contract_role: String,
        contract_identifier: String,
        nominal_interest_rate: u64,
        currency: String,
        initial_exchange_date: u64,
        maturity_date: u64,
        notional_principal: u64,
        discount: u64,
        bond_position: String,
        price: u64,
        number_of_bonds: u64,
    ) -> (r: Result<ZeroCouponBond, BondError>)
        requires
            notional_principal + discount <= u64::MAX,
        ensures
            r is Ok <==> terms_ok(initial_exchange_date, maturity_date, number_of_bonds),
            r matches Err(e) ==> e == BondError::InvalidTerms,
            (r matches Ok(b) ==> b@ == initial_view(
                contract_type@,
                contract_role@,
                contract_identifier@,
                nominal_interest_rate,
                currency@,
                initial_exchange_date,
                maturity_date,
                notional_principal,
                discount,
                bond_position@,
                price,
                number_of_bonds,
            )),
    {
        if maturity_date <= initial_exchange_date || number_of_bonds == 0 {
            return Err(BondError::InvalidTerms);
        }
        Ok(ZeroCouponBond {
            contract_type,
            contract_role,
            contract_identifier,
            nominal_interest_rate,
            currency,
            initial_exchange_date,
            maturity_date,
            notional_principal,
            discount,
            bond_position,
            bonds: Vault::with_balance(number_of_bonds),
            collected: Vault::empty(),
            price,
        })
    }

    /// Sells one bond unit: moves exactly `price` out of the offered payment
    /// into the currency vault and hands back one unit together with the
    /// change `payment - price`. Both movements happen together or not at
    /// all; a rejected purchase leaves both vaults unchanged.
    ///
    /// The bound on `collected + price` is a machine limit: the vault balance
    /// must fit the amount type.
    pub fn purchase_bond(&mut self, payment: u64) -> (r: Result<(BondBucket, u64), BondError>)
        requires
            old(self)@.collected + old(self)@.price <= u64::MAX,
        ensures
            final(self)@ == purchase_step(old(self)@, payment as int),
            (purchase_accepted(old(self)@, payment as int) ==> (r matches Ok(sale) && {
                &&& sale.0@.asset == old(self)@.contract_identifier
                &&& sale.0@.amount == 1
                &&& sale.1 as int == payment - old(self)@.price
            })),
            (payment as int) < old(self)@.price ==> r == Err::<(BondBucket, u64), BondError>(
                BondError::InsufficientPayment,
            ),
            payment as int >= old(self)@.price && old(self)@.bonds == 0 ==> r == Err::<
                (BondBucket, u64),
                BondError,
            >(BondError::SoldOut),
    {
        if payment < self.price {
            return Err(BondError::InsufficientPayment);
        }
        let have_unit = self.bonds.try_withdraw(1);
        if !have_unit {
            return Err(BondError::SoldOut);
        }
        self.collected.deposit(self.price);
        let unit = BondBucket::mint(self.contract_identifier.clone(), 1);
        Ok((unit, payment - self.price))
    }

    /// Buys one unit back: the unit returns to the bond vault (the supply is
    /// replenished, not burned) and the currency vault pays out
    /// `notional_principal + discount`. The checks run in order — quantity,
    /// asset kind, reserve — and a rejected bucket comes back untouched with
    /// the error, so no failure moves any units or currency.
    ///
    /// The two bounds are machine limits: the payout and the replenished unit
    /// count must fit the amount type.
    pub fn sell_the_bond(&mut self, bond: BondBucket) -> (r: Result<u64, (BondError, BondBucket)>)
        requires
            payout_of(old(self)@) <= u64::MAX,
            old(self)@.bonds < u64::MAX,
        ensures
            final(self)@ == redeem_step(old(self)@, bond@.amount, genuine(old(self)@, bond@)),
            (redeem_accepted(old(self)@, bond@.amount, genuine(old(self)@, bond@)) ==> (
            r matches Ok(payout) && payout as int == payout_of(old(self)@))),
            (bond@.amount != 1 ==> (r matches Err(back) && back.0 == BondError::InvalidQuantity
                && back.1 == bond)),
            (bond@.amount == 1 && !genuine(old(self)@, bond@) ==> (r matches Err(back) && back.0
                == BondError::WrongAsset && back.1 == bond)),
            (bond@.amount == 1 && genuine(old(self)@, bond@) && old(self)@.collected < payout_of(
                old(self)@,
            ) ==> (r matches Err(back) && back.0 == BondError::InsufficientReserve && back.1
                == bond)),
    {
        if bond.amount() != 1 {
            return Err((BondError::InvalidQuantity, bond));
        }
        if !bond.is_asset(&self.contract_identifier) {
            return Err((BondError::WrongAsset, bond));
        }
        let payout = self.notional_principal + self.discount;
        let covered = self.collected.try_withdraw(payout);
        if !covered {
            return Err((BondError::InsufficientReserve, bond));
        }
        self.bonds.deposit(1);
        Ok(payout)
    }

    /// Signed whole days from `current_time` to the maturity date, truncated
    /// toward zero. Read-only; the caller supplies the clock reading, and the
    /// count goes negative past maturity.
    pub fn check_the_maturity_of_bonds(&self, current_time: u64) -> (r: i64)
        ensures
            r as int == days_left(self@.maturity_date, current_time as int),
    {
        if current_time <= self.maturity_date {
            ((self.maturity_date - current_time) / SECONDS_PER_DAY) as i64
        } else {
            -(((current_time - self.maturity_date) / SECONDS_PER_DAY) as i64)
        }
    }

    /// One consistent snapshot of the terms, the current bond-unit balance,
    /// and the maturity computation at `current_time`.
    pub fn get_bond_details(&self, current_time: u64) -> (d: BondDetails)
        ensures
            details_match(d, self@, current_time as int),
    {
        BondDetails {
            contract_type: self.contract_type.clone(),
            contract_role: self.contract_role.clone(),
            contract_identifier: self.contract_identifier.clone(),
            nominal_interest_rate: self.nominal_interest_rate,
            currency: self.currency.clone(),
            initial_exchange_date: self.initial_exchange_date,
            maturity_date: self.maturity_date,
            notional_principal: self.notional_principal,
            discount: self.discount,
            bond_position: self.bond_position.clone(),
            price: self.price,
            amount: self.bonds.balance(),
            maturity_days_left: self.check_the_maturity_of_bonds(current_time),
        }
    }

    /// Balance of the collected-currency vault.
    pub fn collected_balance(&self) -> (r: u64)
        ensures
            r as int == self@.collected,
    {
        self.collected.balance()
    }
}

} // verus!
