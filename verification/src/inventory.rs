//! The slice of a player's inventory the tick pipeline reads: the held
//! weapons and which one is active. Leveling tables and item logic stay
//! with the external inventory system.

use vstd::prelude::*;

use crate::weapon::{Weapon, WeaponType};

verus! {

/// What the external inventory reports after experience is drained.
#[derive(Clone, Copy, PartialEq, Eq, Structural, Debug)]
pub enum TakeExperienceResult {
    Unchanged,
    LevelDown,
}

pub struct Inventory {
    pub weapons: Vec<Weapon>,
    pub current_weapon: usize,
}

impl Inventory {
    pub fn new() -> (inv: Inventory)
        ensures
            inv.weapons@.len() == 0,
            inv.current_weapon == 0,
    {
        Inventory { weapons: Vec::new(), current_weapon: 0 }
    }

    /// The weapon the player currently holds, if the selection is valid.
    pub fn get_current_weapon(&self) -> (r: Option<&Weapon>)
        ensures
            r is Some <==> self.current_weapon < self.weapons@.len(),
            r matches Some(w) ==> *w == self.weapons@[self.current_weapon as int],
    {
        if self.current_weapon < self.weapons.len() {
            Some(&self.weapons[self.current_weapon])
        } else {
            None
        }
    }

    /// Whether any held weapon has the given type.
    pub fn has_weapon(&self, wtype: WeaponType) -> (r: bool)
        ensures
            r == exists|i: int| 0 <= i < self.weapons@.len() && (#[trigger] self.weapons@[i]).wtype == wtype,
    {
        let n = self.weapons.len();
        let mut i: usize = 0;
        while i < n
            invariant
                i <= n,
                n == self.weapons@.len(),
                forall|k: int| 0 <= k < i ==> (#[trigger] self.weapons@[k]).wtype != wtype,
            decreases n - i,
        {
            if self.weapons[i].wtype == wtype {
                return true;
            }
            i = i + 1;
        }
        false
    }
}

} // verus!
