use vstd::prelude::*;

verus! {

/// Rarity tier of an item, from most common to rarest.
#[derive(PartialEq, Eq, Structural, Clone, Copy, Debug, Hash, PartialOrd, Ord)]
pub enum Rarity {
    MilSpec,
    Restricted,
    Classified,
    Covert,
    SpecialItem,
}

/// Wear category of an item, from best to worst condition.
#[derive(PartialEq, Eq, Structural, Clone, Copy, Debug, Hash, PartialOrd, Ord)]
pub enum Wear {
    FactoryNew,
    MinimalWear,
    FieldTested,
    WellWorn,
    BattleScarred,
}

/// One simulated draw.
#[derive(PartialEq, Eq, Structural, Clone, Copy, Debug)]
pub struct Item {
    pub rarity: Rarity,
    pub wear: Wear,
    pub stattrak: bool,
}

impl Rarity {
    /// Position in the enumeration order, `MilSpec` first.
    pub open spec fn rank(self) -> nat {
        match self {
            Rarity::MilSpec => 0,
            Rarity::Restricted => 1,
            Rarity::Classified => 2,
            Rarity::Covert => 3,
            Rarity::SpecialItem => 4,
        }
    }

    pub open spec fn at(i: int) -> Rarity {
        if i <= 0 {
            Rarity::MilSpec
        } else if i == 1 {
            Rarity::Restricted
        } else if i == 2 {
            Rarity::Classified
        } else if i == 3 {
            Rarity::Covert
        } else {
            Rarity::SpecialItem
        }
    }

    pub open spec fn spec_label(self) -> Seq<char> {
        match self {
            Rarity::MilSpec => "Mil-Spec (Blue)"@,
            Rarity::Restricted => "Restricted (Purple)"@,
            Rarity::Classified => "Classified (Pink)"@,
            Rarity::Covert => "Covert (Red)"@,
            Rarity::SpecialItem => "Rare Special Item (Gold)"@,
        }
    }

    /// Display label of the tier.
    pub fn label(&self) -> (r: &'static str)
        ensures
            r@ == self.spec_label(),
    {
        match self {
            Rarity::MilSpec => "Mil-Spec (Blue)",
            Rarity::Restricted => "Restricted (Purple)",
            Rarity::Classified => "Classified (Pink)",
            Rarity::Covert => "Covert (Red)",
            Rarity::SpecialItem => "Rare Special Item (Gold)",
        }
    }

    pub(crate) fn from_rank(i: u64) -> (r: Rarity)
        requires
            i < 5,
        ensures
            r == Rarity::at(i as int),
            r.rank() == i,
    {
        if i == 0 {
            Rarity::MilSpec
        } else if i == 1 {
            Rarity::Restricted
        } else if i == 2 {
            Rarity::Classified
        } else if i == 3 {
            Rarity::Covert
        } else {
            Rarity::SpecialItem
        }
    }

    pub(crate) fn rank_of(&self) -> (r: u64)
        ensures
            r == self.rank(),
    {
        match self {
            Rarity::MilSpec => 0,
            Rarity::Restricted => 1,
            Rarity::Classified => 2,
            Rarity::Covert => 3,
            Rarity::SpecialItem => 4,
        }
    }
}

impl Wear {
    /// Position in the enumeration order, `FactoryNew` first.
    pub open spec fn rank(self) -> nat {
        match self {
            Wear::FactoryNew => 0,
            Wear::MinimalWear => 1,
            Wear::FieldTested => 2,
            Wear::WellWorn => 3,
            Wear::BattleScarred => 4,
        }
    }

    pub open spec fn at(i: int) -> Wear {
        if i <= 0 {
            Wear::FactoryNew
        } else if i == 1 {
            Wear::MinimalWear
        } else if i == 2 {
            Wear::FieldTested
        } else if i == 3 {
            Wear::WellWorn
        } else {
            Wear::BattleScarred
        }
    }

    pub open spec fn spec_label(self) -> Seq<char> {
        match self {
            Wear::FactoryNew => "Factory New"@,
            Wear::MinimalWear => "Minimal Wear"@,
            Wear::FieldTested => "Field-Tested"@,
            Wear::WellWorn => "Well-Worn"@,
            Wear::BattleScarred => "Battle-Scarred"@,
        }
    }

    /// Display label of the category.
    pub fn label(&self) -> (r: &'static str)
        ensures
            r@ == self.spec_label(),
    {
        match self {
            Wear::FactoryNew => "Factory New",
            Wear::MinimalWear => "Minimal Wear",
            Wear::FieldTested => "Field-Tested",
            Wear::WellWorn => "Well-Worn",
            Wear::BattleScarred => "Battle-Scarred",
        }
    }

    pub(crate) fn from_rank(i: u64) -> (r: Wear)
        requires
            i < 5,
        ensures
            r == Wear::at(i as int),
            r.rank() == i,
    {
        if i == 0 {
            Wear::FactoryNew
        } else if i == 1 {
            Wear::MinimalWear
        } else if i == 2 {
            Wear::FieldTested
        } else if i == 3 {
            Wear::WellWorn
        } else {
            Wear::BattleScarred
        }
    }

    pub(crate) fn rank_of(&self) -> (r: u64)
        ensures
            r == self.rank(),
    {
        match self {
            Wear::FactoryNew => 0,
            Wear::MinimalWear => 1,
            Wear::FieldTested => 2,
            Wear::WellWorn => 3,
            Wear::BattleScarred => 4,
        }
    }
}

} // verus!
