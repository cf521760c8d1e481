//! Ephemeral channel-scoped combatants.

use vstd::prelude::*;
use vstd::string::*;
use crate::stats::MonsterStats;

verus! {

/// The mathematical content of a monster.
pub struct MonsterView {
    pub name: Seq<char>,
    pub stats: MonsterStats,
    pub temp_stats: Option<MonsterStats>,
}

impl MonsterView {
    /// The attribute block a lookup reports: the temporary overlay while
    /// one is active, the base attributes otherwise.
    pub open spec fn effective_stats(self) -> MonsterStats {
        match self.temp_stats {
            Some(t) => t,
            None => self.stats,
        }
    }
}

/// A monster: base attributes plus an optional temporary-stats overlay.
pub struct Monster {
    pub name: String,
    pub stats: MonsterStats,
    pub temp_stats: Option<MonsterStats>,
}

impl View for Monster {
    type V = MonsterView;

    open spec fn view(&self) -> MonsterView {
        MonsterView { name: self.name@, stats: self.stats, temp_stats: self.temp_stats }
    }
}

impl DeepView for Monster {
    type V = MonsterView;

    open spec fn deep_view(&self) -> MonsterView {
        self.view()
    }
}

impl Clone for Monster {
    fn clone(&self) -> (r: Self)
        ensures
            r@ == self@,
    {
        Monster { name: self.name.clone(), stats: self.stats, temp_stats: self.temp_stats }
    }
}

impl Monster {
    /// Builds a monster with no temporary overlay.
    pub fn create(
        name: &str,
        health: u8,
        strength: u8,
        dexterity: u8,
        constitution: u8,
        wisdom: u8,
        intellect: u8,
        charisma: u8,
    ) -> (r: Monster)
        ensures
            r@.name == name@,
            r@.stats == (MonsterStats {
                health,
                strength,
                dexterity,
                constitution,
                wisdom,
                intellect,
                charisma,
            }),
            r@.temp_stats is None,
    {
        Monster {
            name: name.to_owned(),
            stats: MonsterStats {
                health,
                strength,
                dexterity,
                constitution,
                wisdom,
                intellect,
                charisma,
            },
            temp_stats: None,
        }
    }

    /// Lays a temporary overlay over the base attributes.
    pub fn set_temp_stats(&mut self, stats: MonsterStats)
        ensures
            final(self)@.name == old(self)@.name,
            final(self)@.stats == old(self)@.stats,
            final(self)@.temp_stats == Some(stats),
    {
        self.temp_stats = Some(stats);
    }

    /// Drops the overlay; reporting reverts to the base attributes.
    pub fn clear_temp_stats(&mut self)
        ensures
            final(self)@.name == old(self)@.name,
            final(self)@.stats == old(self)@.stats,
            final(self)@.temp_stats is None,
    {
        self.temp_stats = None;
    }

    pub fn has_temp_stats(&self) -> (r: bool)
        ensures
            r == (self@.temp_stats is Some),
    {
        self.temp_stats.is_some()
    }

    /// The attribute block a lookup reports right now.
    pub fn stats(&self) -> (r: MonsterStats)
        ensures
            r == self@.effective_stats(),
    {
        match &self.temp_stats {
            Some(t) => *t,
            None => self.stats,
        }
    }

    /// The reference token by which this monster reports itself.
    pub fn identifier(&self) -> (r: String)
        ensures
            r@ == self@.name,
    {
        self.name.clone()
    }
}

} // verus!
