//! Weapons and the damage they deal.

use crate::actor::Actor;
use vstd::prelude::*;
use vstd::string::StringExecFns;

verus! {

/// Something to attack with. Dealing damage changes neither the weapon nor
/// the target: what becomes of the amount is the caller's business.
pub trait Weapon {
    /// What the weapon is called.
    fn get_name(&self) -> String;

    /// The points of damage that a hit on `target` deals.
    fn deal_damage(&self, target: &Actor) -> u32;
}

/// The weapons that the player's character carries.
#[derive(Copy, Clone, Debug, PartialEq, Eq, Structural)]
pub enum Armament {
    HeroicSword,
    Boomerang,
    DeadlyBomb,
    DeliciousLettuce,
}

impl Armament {
    /// What the weapon is called.
    pub open spec fn name(self) -> Seq<char> {
        match self {
            Armament::HeroicSword => "Heroic Sword"@,
            Armament::Boomerang => "Boomerange"@,
            Armament::DeadlyBomb => "Deadly Bomb"@,
            Armament::DeliciousLettuce => "Delicious Lettuce"@,
        }
    }

    /// The points of damage that one hit deals, whoever is hit.
    pub open spec fn damage(self) -> nat {
        match self {
            Armament::HeroicSword => 8,
            Armament::Boomerang => 4,
            Armament::DeadlyBomb => 12,
            Armament::DeliciousLettuce => 0,
        }
    }
}

impl Weapon for Armament {
    fn get_name(&self) -> (name: String)
        ensures
            name@ == self.name(),
    {
        match self {
            Armament::HeroicSword => String::from_str("Heroic Sword"),
            Armament::Boomerang => String::from_str("Boomerange"),
            Armament::DeadlyBomb => String::from_str("Deadly Bomb"),
            Armament::DeliciousLettuce => String::from_str("Delicious Lettuce"),
        }
    }

    fn deal_damage(&self, target: &Actor) -> (amount: u32)
        ensures
            amount == self.damage(),
    {
        match self {
            Armament::HeroicSword => 8,
            Armament::Boomerang => 4,
            Armament::DeadlyBomb => 12,
            Armament::DeliciousLettuce => 0,
        }
    }
}

} // verus!
