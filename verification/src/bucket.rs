use vstd::prelude::*;

verus! {

/// What a [`BondBucket`] holds: the identifier of the issuance whose units
/// these are, and how many indivisible units.
pub struct BucketView {
    pub asset: Seq<char>,
    pub amount: int,
}

/// A transferable parcel of bond units, tagged with the asset kind it holds.
///
/// Buckets come out of a purchase and go back in a redemption; the tag is the
/// issuing contract's identifier, so units from different issuances never mix.
#[derive(Debug)]
pub struct BondBucket {
    asset: String,
    amount: u64,
}

impl View for BondBucket {
    type V = BucketView;

    closed spec fn view(&self) -> BucketView {
        BucketView { asset: self.asset@, amount: self.amount as int }
    }
}

impl BondBucket {
    /// Mints a bucket. Only the issuance creates buckets; holders obtain them
    /// through purchases.
    pub(crate) fn mint(asset: String, amount: u64) -> (b: BondBucket)
        ensures
            b@.asset == asset@,
            b@.amount == amount as int,
    {
        BondBucket { asset, amount }
    }

    /// Number of units in the bucket.
    pub fn amount(&self) -> (r: u64)
        ensures
            r as int == self@.amount,
    {
        self.amount
    }

    /// Whether the bucket holds units of the issuance identified by `id`.
    pub fn is_asset(&self, id: &String) -> (r: bool)
        ensures
            r == (self@.asset == id@),
    {
        self.asset == *id
    }

    /// Pours `other` into this bucket if both hold the same asset kind and the
    /// combined amount fits; otherwise hands `other` back untouched.
    pub fn join(&mut self, other: BondBucket) -> (rejected: Option<BondBucket>)
        ensures
            (old(self)@.asset == other@.asset && old(self)@.amount + other@.amount <= u64::MAX)
                ==> {
                    &&& rejected is None
                    &&& final(self)@.asset == old(self)@.asset
                    &&& final(self)@.amount == old(self)@.amount + other@.amount
                },
            !(old(self)@.asset == other@.asset && old(self)@.amount + other@.amount <= u64::MAX)
                ==> rejected == Some(other) && *final(self) == *old(self),
    {
        if self.asset == other.asset && other.amount <= u64::MAX - self.amount {
            self.amount = self.amount + other.amount;
            None
        } else {
            Some(other)
        }
    }
}

} // verus!
