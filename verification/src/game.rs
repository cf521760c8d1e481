//! Campaigns: one per chat channel, run by a game master.

use vstd::prelude::*;
use vstd::string::*;
use crate::player::{Player, PlayerView};
use crate::BotResult;

verus! {

/// The roster read as a map: a later login for the same nickname shadows
/// an earlier one.
pub open spec fn roster_map(s: Seq<(String, Player)>) -> Map<Seq<char>, PlayerView>
    decreases s.len(),
{
    if s.len() == 0 {
        Map::empty()
    } else {
        roster_map(s.drop_last()).insert(s.last().0@, s.last().1@)
    }
}

/// The mathematical content of a campaign.
pub struct GameView {
    pub name: Seq<char>,
    pub dm_nick: Seq<char>,
    pub users: Map<Seq<char>, PlayerView>,
}

/// A campaign bound to one channel: its name, its game master's nickname,
/// and the roster of players who logged into it.
pub struct Game {
    pub name: String,
    pub dm_nick: String,
    users: Vec<(String, Player)>,
}

impl View for Game {
    type V = GameView;

    closed spec fn view(&self) -> GameView {
        GameView { name: self.name@, dm_nick: self.dm_nick@, users: roster_map(self.users@) }
    }
}

impl Clone for Game {
    fn clone(&self) -> (r: Self)
        ensures
            r@ == self@,
    {
        let mut users: Vec<(String, Player)> = Vec::new();
        let mut i: usize = 0;
        while i < self.users.len()
            invariant
                i <= self.users.len(),
                users.len() == i,
                forall|j: int| 0 <= j < i ==> users@[j].0@ == self.users@[j].0@ && users@[j].1@
                    == self.users@[j].1@,
            decreases self.users.len() - i,
        {
            let entry = &self.users[i];
            users.push((entry.0.clone(), entry.1.clone()));
            i = i + 1;
        }
        proof {
            lemma_roster_map_congruent(users@, self.users@);
        }
        Game { name: self.name.clone(), dm_nick: self.dm_nick.clone(), users }
    }
}

/// Two rosters whose entries agree in content read as the same map.
proof fn lemma_roster_map_congruent(a: Seq<(String, Player)>, b: Seq<(String, Player)>)
    requires
        a.len() == b.len(),
        forall|j: int| 0 <= j < a.len() ==> a[j].0@ == b[j].0@ && a[j].1@ == b[j].1@,
    ensures
        roster_map(a) == roster_map(b),
    decreases a.len(),
{
    if a.len() > 0 {
        lemma_roster_map_congruent(a.drop_last(), b.drop_last());
    }
}

impl Game {
    /// A fresh campaign with an empty roster.
    pub fn new(name: &str, dm_nick: &str) -> (r: Game)
        ensures
            r@.name == name@,
            r@.dm_nick == dm_nick@,
            r@.users == Map::<Seq<char>, PlayerView>::empty(),
    {
        Game { name: name.to_owned(), dm_nick: dm_nick.to_owned(), users: Vec::new() }
    }

    /// Admits the account to the roster when the password matches; a plain
    /// equality check, nothing hardened. The reply text reports which of
    /// the two happened, and the roster is untouched on a mismatch.
    pub fn login(&mut self, account: Player, nickname: &str, password: &str) -> (r: BotResult<
        &'static str,
    >)
        ensures
            r is Ok,
            final(self)@.name == old(self)@.name,
            final(self)@.dm_nick == old(self)@.dm_nick,
            account@.password == password@ ==> final(self)@.users == old(self)@.users.insert(
                nickname@,
                account@,
            ) && r->Ok_0@ == "Login successful."@,
            account@.password != password@ ==> final(self)@.users == old(self)@.users && r->Ok_0@
                == "Password incorrect."@,
    {
        if crate::text::str_eq(account.password.as_str(), password) {
            let ghost pre = self.users@;
            self.users.push((nickname.to_owned(), account));
            proof {
                assert(self.users@.drop_last() =~= pre);
            }
            Ok("Login successful.")
        } else {
            Ok("Password incorrect.")
        }
    }

    /// Whether the nickname is this campaign's game master.
    pub fn is_dm(&self, nickname: &str) -> (r: bool)
        ensures
            r == (nickname@ == self@.dm_nick),
    {
        crate::text::str_eq(nickname, self.dm_nick.as_str())
    }
}

} // verus!
