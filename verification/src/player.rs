//! Persisted player accounts.

use vstd::prelude::*;
use vstd::string::*;
use crate::stats::Stats;

verus! {

/// The mathematical content of a player account.
pub struct PlayerView {
    pub username: Seq<char>,
    pub password: Seq<char>,
    pub stats: Stats,
    pub feats: Seq<Seq<char>>,
}

/// A persisted account: credentials, attributes, and an ordered,
/// append-only list of feats.
pub struct Player {
    pub username: String,
    pub password: String,
    pub stats: Stats,
    pub feats: Vec<String>,
}

impl View for Player {
    type V = PlayerView;

    open spec fn view(&self) -> PlayerView {
        PlayerView {
            username: self.username@,
            password: self.password@,
            stats: self.stats,
            feats: self.feats.deep_view(),
        }
    }
}

/// Copies a list of strings, keeping its contents.
pub fn clone_strings(v: &Vec<String>) -> (r: Vec<String>)
    ensures
        r.deep_view() == v.deep_view(),
{
    let mut r: Vec<String> = Vec::new();
    let mut i: usize = 0;
    while i < v.len()
        invariant
            i <= v.len(),
            r.len() == i,
            forall|j: int| 0 <= j < i ==> r.deep_view()[j] == v.deep_view()[j],
        decreases v.len() - i,
    {
        r.push(v[i].clone());
        i = i + 1;
    }
    proof {
        assert(r.deep_view() =~= v.deep_view());
    }
    r
}

/// Compares two lists of strings by contents.
pub fn string_lists_eq(a: &Vec<String>, b: &Vec<String>) -> (r: bool)
    ensures
        r == (a.deep_view() == b.deep_view()),
{
    if a.len() != b.len() {
        proof {
            assert(a.deep_view().len() == a@.len());
            assert(b.deep_view().len() == b@.len());
        }
        return false;
    }
    let mut i: usize = 0;
    while i < a.len()
        invariant
            a.len() == b.len(),
            i <= a.len(),
            forall|j: int| 0 <= j < i ==> a.deep_view()[j] == b.deep_view()[j],
        decreases a.len() - i,
    {
        if !crate::text::str_eq(a[i].as_str(), b[i].as_str()) {
            proof {
                assert(a.deep_view()[i as int] == a@[i as int]@);
                assert(b.deep_view()[i as int] == b@[i as int]@);
            }
            return false;
        }
        i = i + 1;
    }
    proof {
        assert(a.deep_view() =~= b.deep_view());
    }
    true
}

impl Clone for Player {
    fn clone(&self) -> (r: Self)
        ensures
            r@ == self@,
    {
        Player {
            username: self.username.clone(),
            password: self.password.clone(),
            stats: self.stats,
            feats: clone_strings(&self.feats),
        }
    }
}

impl PartialEq for Player {
    fn eq(&self, other: &Self) -> (r: bool) {
        let r = self.username == other.username && self.password == other.password && self.stats
            == other.stats && string_lists_eq(&self.feats, &other.feats);
        proof {
            if r {
                assert(self@ == other@);
            } else {
                assert(self@ != other@);
            }
        }
        r
    }
}

impl vstd::std_specs::cmp::PartialEqSpecImpl for Player {
    open spec fn obeys_eq_spec() -> bool {
        true
    }

    open spec fn eq_spec(&self, other: &Self) -> bool {
        self@ == other@
    }
}

impl Player {
    /// Builds a fresh account with no feats.
    pub fn create(
        username: &str,
        password: &str,
        strength: u8,
        dexterity: u8,
        constitution: u8,
        wisdom: u8,
        intellect: u8,
        charisma: u8,
    ) -> (r: crate::BotResult<Player>)
        ensures
            r is Ok,
            r->Ok_0@.username == username@,
            r->Ok_0@.password == password@,
            r->Ok_0@.stats == (Stats {
                strength,
                dexterity,
                constitution,
                wisdom,
                intellect,
                charisma,
            }),
            r->Ok_0@.feats == Seq::<Seq<char>>::empty(),
    {
        let feats: Vec<String> = Vec::new();
        proof {
            assert(feats.deep_view() =~= Seq::<Seq<char>>::empty());
        }
        Ok(
            Player {
                username: username.to_owned(),
                password: password.to_owned(),
                stats: Stats {
                    strength,
                    dexterity,
                    constitution,
                    wisdom,
                    intellect,
                    charisma,
                },
                feats,
            },
        )
    }

    /// Appends a feat; everything else is unchanged.
    pub fn add_feat(&mut self, feat: &str)
        ensures
            final(self)@.feats == old(self)@.feats.push(feat@),
            final(self)@.username == old(self)@.username,
            final(self)@.password == old(self)@.password,
            final(self)@.stats == old(self)@.stats,
    {
        self.feats.push(feat.to_owned());
        proof {
            assert(self@.feats =~= old(self)@.feats.push(feat@));
        }
    }

    /// The reference token by which this account is addressed in chat.
    pub fn identifier(&self) -> (r: String)
        ensures
            r@ == self@.username,
    {
        self.username.clone()
    }
}

} // verus!
