use vstd::prelude::*;

verus! {

/// An ownership-exclusive container for a balance of one asset kind.
///
/// The balance can only change through [`Vault::deposit`] and
/// [`Vault::try_withdraw`]; there is no raw mutable access. Which asset kind a
/// vault holds is decided by its owner (the issuance keeps one vault of bond
/// units and one of collected currency).
pub struct Vault {
    balance: u64,
}

impl View for Vault {
    type V = int;

    closed spec fn view(&self) -> int {
        self.balance as int
    }
}

impl Vault {
    /// Opens a vault holding `initial` units.
    pub fn with_balance(initial: u64) -> (v: Vault)
        ensures
            v@ == initial as int,
    {
        Vault { balance: initial }
    }

    /// Opens an empty vault.
    pub fn empty() -> (v: Vault)
        ensures
            v@ == 0,
    {
        Vault { balance: 0 }
    }

    /// Current balance.
    pub fn balance(&self) -> (r: u64)
        ensures
            r as int == self@,
    {
        self.balance
    }

    /// Adds `amount` to the balance.
    pub fn deposit(&mut self, amount: u64)
        requires
            old(self)@ + amount <= u64::MAX,
        ensures
            final(self)@ == old(self)@ + amount,
    {
        self.balance = self.balance + amount;
    }

    /// Removes `amount` if the balance covers it, and reports whether it did;
    /// on a shortfall the vault is left unchanged.
    pub fn try_withdraw(&mut self, amount: u64) -> (ok: bool)
        ensures
            ok == (amount as int <= old(self)@),
            ok ==> final(self)@ == old(self)@ - amount,
            !ok ==> final(self)@ == old(self)@,
    {
        if amount <= self.balance {
            self.balance = self.balance - amount;
            true
        } else {
            false
        }
    }
}

} // verus!
