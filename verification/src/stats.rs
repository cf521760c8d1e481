//! Attribute blocks for characters and monsters.

use vstd::prelude::*;
use crate::text::{append_dec, dec_rep};
use vstd::string::*;

verus! {

/// The six named attributes of a persisted character.
#[derive(Clone, Copy, PartialEq, Eq, Structural, Debug)]
pub struct Stats {
    pub strength: u8,
    pub dexterity: u8,
    pub constitution: u8,
    pub wisdom: u8,
    pub intellect: u8,
    pub charisma: u8,
}

impl Stats {
    pub fn new(
        strength: u8,
        dexterity: u8,
        constitution: u8,
        wisdom: u8,
        intellect: u8,
        charisma: u8,
    ) -> (r: crate::BotResult<Stats>)
        ensures
            r is Ok,
            r->Ok_0 == (Stats { strength, dexterity, constitution, wisdom, intellect, charisma }),
    {
        Ok(Stats { strength, dexterity, constitution, wisdom, intellect, charisma })
    }

    /// The value of the named attribute, or `None` for an unknown name.
    pub open spec fn spec_get_stat(self, name: Seq<char>) -> Option<u8> {
        if name == "strength"@ {
            Some(self.strength)
        } else if name == "dexterity"@ {
            Some(self.dexterity)
        } else if name == "constitution"@ {
            Some(self.constitution)
        } else if name == "wisdom"@ {
            Some(self.wisdom)
        } else if name == "intellect"@ {
            Some(self.intellect)
        } else if name == "charisma"@ {
            Some(self.charisma)
        } else {
            None
        }
    }

    pub fn get_stat(&self, name: &str) -> (r: Option<u8>)
        ensures
            r == self.spec_get_stat(name@),
    {
        if crate::text::str_eq(name, "strength") {
            Some(self.strength)
        } else if crate::text::str_eq(name, "dexterity") {
            Some(self.dexterity)
        } else if crate::text::str_eq(name, "constitution") {
            Some(self.constitution)
        } else if crate::text::str_eq(name, "wisdom") {
            Some(self.wisdom)
        } else if crate::text::str_eq(name, "intellect") {
            Some(self.intellect)
        } else if crate::text::str_eq(name, "charisma") {
            Some(self.charisma)
        } else {
            None
        }
    }

    /// The one-line rendering of a character's attribute block.
    pub open spec fn spec_text(self) -> Seq<char> {
        "Stats { strength: "@ + dec_rep(self.strength as nat) + ", dexterity: "@ + dec_rep(
            self.dexterity as nat,
        ) + ", constitution: "@ + dec_rep(self.constitution as nat) + ", wisdom: "@ + dec_rep(
            self.wisdom as nat,
        ) + ", intellect: "@ + dec_rep(self.intellect as nat) + ", charisma: "@ + dec_rep(
            self.charisma as nat,
        ) + " }"@
    }

    /// Renders the attribute block for a lookup reply.
    pub fn text(&self) -> (r: String)
        ensures
            r@ == self.spec_text(),
    {
        let mut out = String::new();
        out.append("Stats { strength: ");
        append_dec(&mut out, self.strength as usize);
        out.append(", dexterity: ");
        append_dec(&mut out, self.dexterity as usize);
        out.append(", constitution: ");
        append_dec(&mut out, self.constitution as usize);
        out.append(", wisdom: ");
        append_dec(&mut out, self.wisdom as usize);
        out.append(", intellect: ");
        append_dec(&mut out, self.intellect as usize);
        out.append(", charisma: ");
        append_dec(&mut out, self.charisma as usize);
        out.append(" }");
        proof {
            assert(out@ =~= self.spec_text());
        }
        out
    }
}

/// A monster's attribute block: the six character attributes plus health.
#[derive(Clone, Copy, PartialEq, Eq, Structural, Debug)]
pub struct MonsterStats {
    pub health: u8,
    pub strength: u8,
    pub dexterity: u8,
    pub constitution: u8,
    pub wisdom: u8,
    pub intellect: u8,
    pub charisma: u8,
}

impl MonsterStats {
    pub fn new(
        health: u8,
        strength: u8,
        dexterity: u8,
        constitution: u8,
        wisdom: u8,
        intellect: u8,
        charisma: u8,
    ) -> (r: MonsterStats)
        ensures
            r == (MonsterStats {
                health,
                strength,
                dexterity,
                constitution,
                wisdom,
                intellect,
                charisma,
            }),
    {
        MonsterStats { health, strength, dexterity, constitution, wisdom, intellect, charisma }
    }

    /// The value of the named attribute, or `None` for an unknown name.
    pub open spec fn spec_get_stat(self, name: Seq<char>) -> Option<u8> {
        if name == "health"@ {
            Some(self.health)
        } else if name == "strength"@ {
            Some(self.strength)
        } else if name == "dexterity"@ {
            Some(self.dexterity)
        } else if name == "constitution"@ {
            Some(self.constitution)
        } else if name == "wisdom"@ {
            Some(self.wisdom)
        } else if name == "intellect"@ {
            Some(self.intellect)
        } else if name == "charisma"@ {
            Some(self.charisma)
        } else {
            None
        }
    }

    pub fn get_stat(&self, name: &str) -> (r: Option<u8>)
        ensures
            r == self.spec_get_stat(name@),
    {
        if crate::text::str_eq(name, "health") {
            Some(self.health)
        } else if crate::text::str_eq(name, "strength") {
            Some(self.strength)
        } else if crate::text::str_eq(name, "dexterity") {
            Some(self.dexterity)
        } else if crate::text::str_eq(name, "constitution") {
            Some(self.constitution)
        } else if crate::text::str_eq(name, "wisdom") {
            Some(self.wisdom)
        } else if crate::text::str_eq(name, "intellect") {
            Some(self.intellect)
        } else if crate::text::str_eq(name, "charisma") {
            Some(self.charisma)
        } else {
            None
        }
    }

    /// The one-line rendering of a monster's attribute block.
    pub open spec fn spec_text(self) -> Seq<char> {
        "Stats { health: "@ + dec_rep(self.health as nat) + ", strength: "@ + dec_rep(
            self.strength as nat,
        ) + ", dexterity: "@ + dec_rep(self.dexterity as nat) + ", constitution: "@ + dec_rep(
            self.constitution as nat,
        ) + ", wisdom: "@ + dec_rep(self.wisdom as nat) + ", intellect: "@ + dec_rep(
            self.intellect as nat,
        ) + ", charisma: "@ + dec_rep(self.charisma as nat) + " }"@
    }

    /// Renders the attribute block for a lookup reply.
    pub fn text(&self) -> (r: String)
        ensures
            r@ == self.spec_text(),
    {
        let mut out = String::new();
        out.append("Stats { health: ");
        append_dec(&mut out, self.health as usize);
        out.append(", strength: ");
        append_dec(&mut out, self.strength as usize);
        out.append(", dexterity: ");
        append_dec(&mut out, self.dexterity as usize);
        out.append(", constitution: ");
        append_dec(&mut out, self.constitution as usize);
        out.append(", wisdom: ");
        append_dec(&mut out, self.wisdom as usize);
        out.append(", intellect: ");
        append_dec(&mut out, self.intellect as usize);
        out.append(", charisma: ");
        append_dec(&mut out, self.charisma as usize);
        out.append(" }");
        proof {
            assert(out@ =~= self.spec_text());
        }
        out
    }
}

} // verus!
