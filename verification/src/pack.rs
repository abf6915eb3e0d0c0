//! Packs: which pack a payment buys.

use crate::types::Balance;
use vstd::prelude::*;

verus! {

/// The five packs, from the cheapest to the dearest.
#[derive(Clone, Copy, Debug, PartialEq, Eq, Structural)]
pub enum Pack {
    Bronze,
    Silver,
    Gold,
    Platinum,
    Brilliant,
}

impl Pack {
    /// The place of the pack in the order from the cheapest to the dearest.
    pub open spec fn rank(self) -> nat {
        match self {
            Pack::Bronze => 0,
            Pack::Silver => 1,
            Pack::Gold => 2,
            Pack::Platinum => 3,
            Pack::Brilliant => 4,
        }
    }
}

/// What each pack costs.
#[derive(Clone, Copy, Debug)]
pub struct PackCosts {
    pub bronze: Balance,
    pub silver: Balance,
    pub gold: Balance,
    pub platinum: Balance,
    pub brilliant: Balance,
}

impl PackCosts {
    /// The cost of `pack`.
    pub open spec fn cost_of(self, pack: Pack) -> Balance {
        match pack {
            Pack::Bronze => self.bronze,
            Pack::Silver => self.silver,
            Pack::Gold => self.gold,
            Pack::Platinum => self.platinum,
            Pack::Brilliant => self.brilliant,
        }
    }

    /// The pack that `deposit` pays for exactly: the highest one in rank
    /// where several cost the same, and `None` where no pack costs `deposit`.
    pub fn get_pack(&self, deposit: Balance) -> (pack: Option<Pack>)
        ensures
            match pack {
                Some(bought) => self.cost_of(bought) == deposit && forall|other: Pack|
                    other.rank() > bought.rank() ==> self.cost_of(other) != deposit,
                None => forall|other: Pack| self.cost_of(other) != deposit,
            },
    {
        if deposit == self.brilliant {
            Some(Pack::Brilliant)
        } else if deposit == self.platinum {
            Some(Pack::Platinum)
        } else if deposit == self.gold {
            Some(Pack::Gold)
        } else if deposit == self.silver {
            Some(Pack::Silver)
        } else if deposit == self.bronze {
            Some(Pack::Bronze)
        } else {
            None
        }
    }
}

} // verus!
