//! The capability view shared by players and monsters: everything a
//! lookup command needs from either.

use vstd::prelude::*;
use crate::monster::{Monster, MonsterView};
use crate::player::{Player, PlayerView};

verus! {

/// The mathematical content of a resolved entity reference.
pub enum EntityView {
    Player(PlayerView),
    Monster(MonsterView),
}

impl EntityView {
    pub open spec fn spec_identifier(self) -> Seq<char> {
        match self {
            EntityView::Player(p) => p.username,
            EntityView::Monster(m) => m.name,
        }
    }

    pub open spec fn spec_has_temp_stats(self) -> bool {
        match self {
            EntityView::Player(_) => false,
            EntityView::Monster(m) => m.temp_stats is Some,
        }
    }

    /// The value of the named attribute on the entity's effective
    /// attribute block.
    pub open spec fn spec_get_stat(self, name: Seq<char>) -> Option<u8> {
        match self {
            EntityView::Player(p) => p.stats.spec_get_stat(name),
            EntityView::Monster(m) => m.effective_stats().spec_get_stat(name),
        }
    }

    /// The one-line rendering of the entity's effective attribute block.
    pub open spec fn spec_stats_text(self) -> Seq<char> {
        match self {
            EntityView::Player(p) => p.stats.spec_text(),
            EntityView::Monster(m) => m.effective_stats().spec_text(),
        }
    }
}

/// A resolved entity reference: either a logged-in player or a
/// channel-scoped monster.
pub enum Entity {
    Player(Player),
    Monster(Monster),
}

impl View for Entity {
    type V = EntityView;

    open spec fn view(&self) -> EntityView {
        match self {
            Entity::Player(p) => EntityView::Player(p@),
            Entity::Monster(m) => EntityView::Monster(m@),
        }
    }
}

impl Entity {
    /// The name the entity reports itself by.
    pub fn identifier(&self) -> (r: String)
        ensures
            r@ == self@.spec_identifier(),
    {
        match self {
            Entity::Player(p) => p.identifier(),
            Entity::Monster(m) => m.identifier(),
        }
    }

    /// Whether a temporary-stats overlay is active.
    pub fn has_temp_stats(&self) -> (r: bool)
        ensures
            r == self@.spec_has_temp_stats(),
    {
        match self {
            Entity::Player(_) => false,
            Entity::Monster(m) => m.has_temp_stats(),
        }
    }

    /// Looks the named attribute up on the effective attribute block.
    pub fn get_stat(&self, name: &str) -> (r: Option<u8>)
        ensures
            r == self@.spec_get_stat(name@),
    {
        match self {
            Entity::Player(p) => p.stats.get_stat(name),
            Entity::Monster(m) => m.stats().get_stat(name),
        }
    }

    /// Renders the effective attribute block for a reply.
    pub fn stats_text(&self) -> (r: String)
        ensures
            r@ == self@.spec_stats_text(),
    {
        match self {
            Entity::Player(p) => p.stats.text(),
            Entity::Monster(m) => m.stats().text(),
        }
    }
}

} // verus!
