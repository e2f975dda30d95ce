use vstd::prelude::*;

use crate::issuance::{
    days_left, details_match, initial_view, payout_of, purchase_accepted, purchase_step,
    redeem_accepted, redeem_step, terms_ok, BondDetails, BondView,
};

verus! {

/// One interaction with an issuance, abstracted to what the balances depend
/// on: the payment offered, or the quantity and provenance of returned units.
pub enum LedgerOp {
    Purchase { payment: int },
    Redeem { quantity: int, genuine_unit: bool },
}

/// Balances after one operation.
pub open spec fn apply_op(v: BondView, op: LedgerOp) -> BondView {
    match op {
        LedgerOp::Purchase { payment } => purchase_step(v, payment),
        LedgerOp::Redeem { quantity, genuine_unit } => redeem_step(v, quantity, genuine_unit),
    }
}

/// Units held outside the issuance after one operation: an accepted purchase
/// hands one unit out, an accepted redemption takes one back in, and every
/// rejected operation moves none (a rejected bucket is returned to its
/// holder).
pub open spec fn outside_after(v: BondView, outside: int, op: LedgerOp) -> int {
    match op {
        LedgerOp::Purchase { payment } => if purchase_accepted(v, payment) {
            outside + 1
        } else {
            outside
        },
        LedgerOp::Redeem { quantity, genuine_unit } => if redeem_accepted(
            v,
            quantity,
            genuine_unit,
        ) {
            outside - 1
        } else {
            outside
        },
    }
}

/// Balances and outside-held units after a whole sequence of operations.
pub open spec fn run_ops(v: BondView, outside: int, ops: Seq<LedgerOp>) -> (BondView, int)
    decreases ops.len(),
{
    if ops.len() == 0 {
        (v, outside)
    } else {
        run_ops(apply_op(v, ops[0]), outside_after(v, outside, ops[0]), ops.skip(1))
    }
}

/// Conservation of units: however any sequence of purchases and redemptions
/// goes, the units in the bond vault plus the units held outside together
/// stay equal to the minted supply.
pub proof fn lemma_unit_conservation(v: BondView, outside: int, ops: Seq<LedgerOp>, supply: int)
    requires
        v.bonds + outside == supply,
    ensures
        run_ops(v, outside, ops).0.bonds + run_ops(v, outside, ops).1 == supply,
    decreases ops.len(),
{
    if ops.len() > 0 {
        lemma_unit_conservation(
            apply_op(v, ops[0]),
            outside_after(v, outside, ops[0]),
            ops.skip(1),
            supply,
        );
    }
}

/// The terms and the price are immutable: no sequence of purchases and
/// redemptions changes anything but the two vault balances.
pub proof fn lemma_terms_immutable(v: BondView, outside: int, ops: Seq<LedgerOp>)
    ensures
        (run_ops(v, outside, ops).0 == BondView {
            bonds: run_ops(v, outside, ops).0.bonds,
            collected: run_ops(v, outside, ops).0.collected,
            ..v
        }),
    decreases ops.len(),
{
    if ops.len() > 0 {
        lemma_terms_immutable(apply_op(v, ops[0]), outside_after(v, outside, ops[0]), ops.skip(1));
    }
}

/// The collected currency never shrinks except through an accepted
/// redemption, which withdraws exactly the payout. (The price of any real
/// issuance is non-negative, being an unsigned amount.)
pub proof fn lemma_collected_monotone_except_redemption(v: BondView, op: LedgerOp)
    requires
        v.price >= 0,
    ensures
        apply_op(v, op).collected < v.collected ==> (op matches LedgerOp::Redeem {
            quantity,
            genuine_unit,
        } && redeem_accepted(v, quantity, genuine_unit) && apply_op(v, op).collected == v.collected
            - payout_of(v)),
{
}

/// Round trip: a unit bought from an issuance whose reserve, once the price
/// is in, covers the payout can be redeemed at once; the redemption pays
/// `notional_principal + discount` and the bond vault returns to its
/// pre-purchase balance. (A reserve short of the payout has the redemption
/// rejected instead, so such states are excluded here.)
pub proof fn lemma_purchase_redeem_roundtrip(v: BondView, payment: int)
    requires
        purchase_accepted(v, payment),
        v.collected + v.price >= payout_of(v),
    ensures
        redeem_accepted(purchase_step(v, payment), 1, true),
        redeem_step(purchase_step(v, payment), 1, true).bonds == v.bonds,
        redeem_step(purchase_step(v, payment), 1, true).collected == v.collected + v.price
            - payout_of(v),
{
}

/// A fresh issuance reports its full supply: right after instantiation, a
/// details snapshot shows all `number_of_bonds` units in the bond vault, the
/// currency vault is empty, and the day count follows the maturity formula.
pub proof fn lemma_fresh_issuance_reports_full_supply(
    v: BondView,
    d: BondDetails,
    now: int,
    contract_type: Seq<char>,
    contract_role: Seq<char>,
    contract_identifier: Seq<char>,
    nominal_interest_rate: u64,
    currency: Seq<char>,
    initial_exchange_date: u64,
    maturity_date: u64,
    notional_principal: u64,
    discount: u64,
    bond_position: Seq<char>,
    price: u64,
    number_of_bonds: u64,
)
    requires
        terms_ok(initial_exchange_date, maturity_date, number_of_bonds),
        v == initial_view(
            contract_type,
            contract_role,
            contract_identifier,
            nominal_interest_rate,
            currency,
            initial_exchange_date,
            maturity_date,
            notional_principal,
            discount,
            bond_position,
            price,
            number_of_bonds,
        ),
        details_match(d, v, now),
    ensures
        d.amount == number_of_bonds,
        v.collected == 0,
        d.maturity_days_left as int == days_left(maturity_date as int, now),
{
}

} // verus!
