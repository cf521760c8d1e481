//! The registry that owns all live game state: logged-in users, their
//! active channels, campaigns by channel, and monsters by channel.

use vstd::prelude::*;
use vstd::string::*;
use vstd::hash_map::StringHashMap;
use crate::entity::{Entity, EntityView};
use crate::game::{Game, GameView};
use crate::monster::{Monster, MonsterView};
use crate::player::{Player, PlayerView};
use crate::store::{record_of, RecordStore};
use crate::text::parse_dec;
use crate::{BotError, BotResult};

verus! {

/// The mathematical content of the registry.
pub struct WorldView {
    pub users: Map<Seq<char>, PlayerView>,
    pub user_channels: Map<Seq<char>, Seq<char>>,
    pub games: Map<Seq<char>, GameView>,
    pub monsters: Map<Seq<char>, Seq<MonsterView>>,
}

/// The monster list of a channel; a channel with no list yet reads as
/// empty.
pub open spec fn channel_monsters(w: WorldView, chan: Seq<char>) -> Seq<MonsterView> {
    if w.monsters.contains_key(chan) {
        w.monsters[chan]
    } else {
        Seq::empty()
    }
}

/// True when some logged-in session holds an account with this username.
pub open spec fn has_account(w: WorldView, username: Seq<char>) -> bool {
    exists|n: Seq<char>| #[trigger] w.users.contains_key(n) && w.users[n].username == username
}

/// How an entity reference resolves against a registry:
/// a token starting with `@` names a monster by position and needs a
/// channel; any other token names a logged-in user.
pub enum EntityOutcome {
    Found(EntityView),
    NonInteger,
    NeedChannel,
    NoMonster,
    NoUser,
}

pub open spec fn entity_outcome(w: WorldView, id: Seq<char>, chan: Option<Seq<char>>)
    -> EntityOutcome {
    if id.len() >= 1 && id[0] == '@' {
        match parse_dec(id.subrange(1, id.len() as int)) {
            None => EntityOutcome::NonInteger,
            Some(i) => match chan {
                None => EntityOutcome::NeedChannel,
                Some(c) => {
                    if w.monsters.contains_key(c) && i < w.monsters[c].len() {
                        EntityOutcome::Found(EntityView::Monster(w.monsters[c][i as int]))
                    } else {
                        EntityOutcome::NoMonster
                    }
                },
            },
        }
    } else {
        if w.users.contains_key(id) {
            EntityOutcome::Found(EntityView::Player(w.users[id]))
        } else {
            EntityOutcome::NoUser
        }
    }
}

/// True when one of the first `i` roster entries holds an account with
/// this username.
pub open spec fn saved_in_prefix(w: WorldView, nd: Seq<Seq<char>>, i: int, u: Seq<char>) -> bool {
    exists|j: int| 0 <= j < i && #[trigger] w.users[nd[j]].username == u
}

/// The registry `add_monster` leaves behind.
pub open spec fn with_monster_added(w: WorldView, m: MonsterView, chan: Seq<char>) -> WorldView {
    WorldView { monsters: w.monsters.insert(chan, channel_monsters(w, chan).push(m)), ..w }
}

/// Index allocation for monsters: adding a monster to a channel assigns
/// it the channel's current count — zero for a fresh channel, and one more
/// than the previous monster's index otherwise, so indices are dense and
/// strictly increasing — keeps every earlier monster where it was, and
/// leaves every other channel's list untouched.
pub proof fn lemma_monster_index_allocation(
    w: WorldView,
    m: MonsterView,
    chan: Seq<char>,
    other: Seq<char>,
)
    ensures
        ({
            let w1 = with_monster_added(w, m, chan);
            let idx = channel_monsters(w, chan).len();
            &&& channel_monsters(w1, chan).len() == idx + 1
            &&& channel_monsters(w1, chan)[idx as int] == m
            &&& (forall|j: int|
                0 <= j < idx ==> channel_monsters(w1, chan)[j] == channel_monsters(w, chan)[j])
            &&& (!w.monsters.contains_key(chan) ==> idx == 0)
            &&& (other != chan ==> channel_monsters(w1, other) == channel_monsters(w, other))
        }),
{
}

/// Resolution of monster references: in the registry that `add_monster`
/// leaves behind, `@i` written in base ten resolves to the monster at
/// position `i` of the channel's list for every position up to and
/// including the new one, fails as not-found beyond it, and a reference
/// whose text after `@` is not a numeral fails as invalid input.
pub proof fn lemma_added_monster_resolves(
    w: WorldView,
    m: MonsterView,
    chan: Seq<char>,
    j: nat,
    junk: Seq<char>,
)
    requires
        j <= usize::MAX,
        channel_monsters(w, chan).len() < usize::MAX,
    ensures
        ({
            let w1 = with_monster_added(w, m, chan);
            let idx = channel_monsters(w, chan).len();
            &&& entity_outcome(w1, seq!['@'] + crate::text::dec_rep(idx), Some(chan))
                == EntityOutcome::Found(EntityView::Monster(m))
            &&& (j <= idx ==> entity_outcome(w1, seq!['@'] + crate::text::dec_rep(j), Some(chan))
                == EntityOutcome::Found(EntityView::Monster(channel_monsters(w1, chan)[j as int])))
            &&& (j > idx ==> entity_outcome(w1, seq!['@'] + crate::text::dec_rep(j), Some(chan))
                == EntityOutcome::NoMonster)
            &&& (parse_dec(junk) is None ==> entity_outcome(w1, seq!['@'] + junk, Some(chan))
                == EntityOutcome::NonInteger)
        }),
{
    let w1 = with_monster_added(w, m, chan);
    let idx = channel_monsters(w, chan).len();
    lemma_ref_token_resolves(w1, chan, idx);
    lemma_ref_token_resolves(w1, chan, j);
    let junk_id = seq!['@'] + junk;
    assert(junk_id.subrange(1, junk_id.len() as int) =~= junk);
}

/// `@i` written in base ten resolves to position `i` of the channel's
/// list exactly when `i` is within it, and fails as not-found otherwise.
pub proof fn lemma_ref_token_resolves(w: WorldView, chan: Seq<char>, i: nat)
    requires
        i <= usize::MAX,
    ensures
        ({
            let id = seq!['@'] + crate::text::dec_rep(i);
            &&& (i < channel_monsters(w, chan).len() ==> entity_outcome(w, id, Some(chan))
                == EntityOutcome::Found(EntityView::Monster(w.monsters[chan][i as int])))
            &&& (i >= channel_monsters(w, chan).len() ==> entity_outcome(w, id, Some(chan))
                == EntityOutcome::NoMonster)
        }),
{
    crate::text::lemma_dec_rep_digits(i);
    crate::text::lemma_dec_rep_val(i);
    let id = seq!['@'] + crate::text::dec_rep(i);
    assert(id.subrange(1, id.len() as int) =~= crate::text::dec_rep(i));
    assert(parse_dec(crate::text::dec_rep(i)) == Some(i));
    if !w.monsters.contains_key(chan) {
        assert(channel_monsters(w, chan).len() == 0);
    }
}

/// Logging out really logs out: a nickname is never a key of the user map
/// that `remove_user` leaves behind.
pub proof fn lemma_removed_user_logged_out(users: Map<Seq<char>, PlayerView>, nick: Seq<char>)
    ensures
        !users.remove(nick).contains_key(nick),
{
}

/// The top-level owner of all live state. The roster vector shadows the
/// user map so that every session can be walked when saving.
pub struct World {
    users: StringHashMap<Player>,
    nicks: Vec<String>,
    user_channels: StringHashMap<String>,
    games: StringHashMap<Game>,
    monsters: StringHashMap<Vec<Monster>>,
}

impl View for World {
    type V = WorldView;

    closed spec fn view(&self) -> WorldView {
        WorldView {
            users: self.users@.map_values(|p: Player| p@),
            user_channels: self.user_channels@.map_values(|c: String| c@),
            games: self.games@.map_values(|g: Game| g@),
            monsters: self.monsters@.map_values(|v: Vec<Monster>| v.deep_view()),
        }
    }
}

/// Finds a string by contents in a list.
fn find_string(v: &Vec<String>, s: &str) -> (r: Option<usize>)
    ensures
        match r {
            Some(i) => i < v.deep_view().len() && v.deep_view()[i as int] == s@,
            None => !v.deep_view().contains(s@),
        },
{
    let mut i: usize = 0;
    while i < v.len()
        invariant
            i <= v.len(),
            forall|j: int| 0 <= j < i ==> v.deep_view()[j] != s@,
        decreases v.len() - i,
    {
        if crate::text::str_eq(v[i].as_str(), s) {
            proof {
                assert(v.deep_view()[i as int] == v@[i as int]@);
            }
            return Some(i);
        }
        proof {
            assert(v.deep_view()[i as int] == v@[i as int]@);
        }
        i = i + 1;
    }
    proof {
        if v.deep_view().contains(s@) {
            let j = choose|j: int| 0 <= j < v.deep_view().len() && v.deep_view()[j] == s@;
            assert(v.deep_view()[j] != s@);
        }
    }
    None
}

/// Copies a channel's monster list, keeping its contents.
fn clone_monsters(v: &Vec<Monster>) -> (r: Vec<Monster>)
    ensures
        r.deep_view() == v.deep_view(),
{
    let mut r: Vec<Monster> = Vec::new();
    let mut i: usize = 0;
    while i < v.len()
        invariant
            i <= v.len(),
            r.len() == i,
            forall|j: int| 0 <= j < i ==> r.deep_view()[j] == v.deep_view()[j],
        decreases v.len() - i,
    {
        r.push(v[i].clone());
        i = i + 1;
    }
    proof {
        assert(r.deep_view() =~= v.deep_view());
    }
    r
}

impl World {
    /// The registry's internal soundness: the roster lists every logged-in
    /// nickname exactly once, and every session remembers its channel.
    pub closed spec fn wf(&self) -> bool {
        &&& self.nicks.deep_view().no_duplicates()
        &&& (forall|j: int|
            0 <= j < self.nicks.deep_view().len() ==> self.users@.contains_key(
                #[trigger] self.nicks.deep_view()[j],
            ))
        &&& (forall|k: Seq<char>|
            #[trigger] self.users@.contains_key(k) ==> self.nicks.deep_view().contains(k))
        &&& (forall|k: Seq<char>|
            #[trigger] self.users@.contains_key(k) ==> self.user_channels@.contains_key(k))
    }

    /// A fresh registry with nothing in it.
    pub fn new() -> (r: World)
        ensures
            r.wf(),
            r@.users == Map::<Seq<char>, PlayerView>::empty(),
            r@.user_channels == Map::<Seq<char>, Seq<char>>::empty(),
            r@.games == Map::<Seq<char>, GameView>::empty(),
            r@.monsters == Map::<Seq<char>, Seq<MonsterView>>::empty(),
    {
        let r = World {
            users: StringHashMap::new(),
            nicks: Vec::new(),
            user_channels: StringHashMap::new(),
            games: StringHashMap::new(),
            monsters: StringHashMap::new(),
        };
        proof {
            assert(r@.users =~= Map::<Seq<char>, PlayerView>::empty());
            assert(r@.user_channels =~= Map::<Seq<char>, Seq<char>>::empty());
            assert(r@.games =~= Map::<Seq<char>, GameView>::empty());
            assert(r@.monsters =~= Map::<Seq<char>, Seq<MonsterView>>::empty());
        }
        r
    }

    /// Membership test on the logged-in users.
    pub fn is_user_logged_in(&self, nickname: &str) -> (r: bool)
        ensures
            r == self@.users.contains_key(nickname@),
    {
        self.users.contains_key(nickname)
    }

    /// Binds a session: records the player under the nickname together
    /// with the channel it authenticated against, replacing any prior
    /// session for that nickname.
    pub fn add_user(&mut self, nickname: &str, chan: &str, player: Player)
        requires
            old(self).wf(),
        ensures
            final(self).wf(),
            final(self)@.users == old(self)@.users.insert(nickname@, player@),
            final(self)@.user_channels == old(self)@.user_channels.insert(nickname@, chan@),
            final(self)@.games == old(self)@.games,
            final(self)@.monsters == old(self)@.monsters,
    {
        let ghost oldnd = self.nicks.deep_view();
        if !self.users.contains_key(nickname) {
            self.nicks.push(nickname.to_owned());
            proof {
                assert(self.nicks.deep_view() =~= oldnd.push(nickname@));
                assert(!oldnd.contains(nickname@)) by {
                    if oldnd.contains(nickname@) {
                        let j = choose|j: int|
                            0 <= j < oldnd.len() && oldnd[j] == nickname@;
                        assert(old(self).users@.contains_key(oldnd[j]));
                    }
                }
            }
        }
        self.users.insert(nickname.to_owned(), player);
        self.user_channels.insert(nickname.to_owned(), chan.to_owned());
        proof {
            let nd = self.nicks.deep_view();
            assert(nd.no_duplicates()) by {
                if nd != oldnd {
                    assert(nd == oldnd.push(nickname@));
                    assert forall|i: int, j: int|
                        0 <= i < nd.len() && 0 <= j < nd.len() && i != j implies nd[i]
                        != nd[j] by {
                        if i < oldnd.len() && j < oldnd.len() {
                        } else if i == oldnd.len() {
                            if nd[j] == nickname@ {
                                assert(oldnd[j] == nickname@);
                                assert(oldnd.contains(nickname@));
                            }
                        } else {
                            if nd[i] == nickname@ {
                                assert(oldnd[i] == nickname@);
                                assert(oldnd.contains(nickname@));
                            }
                        }
                    }
                }
            }
            assert forall|k: Seq<char>| #[trigger] self.users@.contains_key(k) implies
                nd.contains(k) by {
                if k == nickname@ {
                    assert(nd[nd.len() - 1] == nickname@ || oldnd.contains(nickname@));
                    if nd == oldnd {
                        assert(old(self).users@.contains_key(k));
                    } else {
                        assert(nd[nd.len() - 1] == nickname@);
                    }
                } else {
                    assert(old(self).users@.contains_key(k));
                    let j = choose|j: int| 0 <= j < oldnd.len() && oldnd[j] == k;
                    assert(nd[j] == k);
                }
            }
            assert(self@.users =~= old(self)@.users.insert(nickname@, player@));
            assert(self@.user_channels =~= old(self)@.user_channels.insert(nickname@, chan@));
            assert(self@.games =~= old(self)@.games);
            assert(self@.monsters =~= old(self)@.monsters);
        }
    }

    /// Looks a logged-in player up by nickname.
    pub fn get_user(&self, nickname: &str) -> (r: BotResult<&Player>)
        ensures
            match r {
                Ok(p) => self@.users.contains_key(nickname@) && p@ == self@.users[nickname@],
                Err(e) => match e {
                    BotError::NotFound(m) => !self@.users.contains_key(nickname@) && m@
                        == "User not found."@,
                    _ => false,
                },
            },
    {
        match self.users.get(nickname) {
            Some(p) => Ok(p),
            None => Err(BotError::NotFound("User not found.".to_owned())),
        }
    }

    /// Membership test on the campaigns.
    pub fn game_exists(&self, chan: &str) -> (r: bool)
        ensures
            r == self@.games.contains_key(chan@),
    {
        self.games.contains_key(chan)
    }

    /// Binds a fresh campaign to the channel, unconditionally replacing
    /// any campaign already there.
    pub fn add_game(&mut self, name: &str, dm_nick: &str, chan: &str)
        requires
            old(self).wf(),
        ensures
            final(self).wf(),
            final(self)@.games == old(self)@.games.insert(
                chan@,
                GameView { name: name@, dm_nick: dm_nick@, users: Map::empty() },
            ),
            final(self)@.users == old(self)@.users,
            final(self)@.user_channels == old(self)@.user_channels,
            final(self)@.monsters == old(self)@.monsters,
    {
        let game = Game::new(name, dm_nick);
        self.games.insert(chan.to_owned(), game);
        proof {
            assert(self@.games =~= old(self)@.games.insert(
                chan@,
                GameView { name: name@, dm_nick: dm_nick@, users: Map::empty() },
            ));
            assert(self@.users =~= old(self)@.users);
            assert(self@.user_channels =~= old(self)@.user_channels);
            assert(self@.monsters =~= old(self)@.monsters);
        }
    }

    /// Ends a session: persists the player's record first, then evicts the
    /// session, and reports the channel the user was last active in. The
    /// channel memory itself is kept, as a trace of the last session.
    pub fn remove_user(&mut self, nickname: &str, store: &mut RecordStore) -> (r: BotResult<
        String,
    >)
        requires
            old(self).wf(),
        ensures
            final(self).wf(),
            final(self)@.games == old(self)@.games,
            final(self)@.monsters == old(self)@.monsters,
            final(self)@.user_channels == old(self)@.user_channels,
            match r {
                Ok(chan) => {
                    &&& old(self)@.users.contains_key(nickname@)
                    &&& old(self)@.user_channels.contains_key(nickname@)
                    &&& chan@ == old(self)@.user_channels[nickname@]
                    &&& final(self)@.users == old(self)@.users.remove(nickname@)
                    &&& final(store)@ == old(store)@.insert(
                        old(self)@.users[nickname@].username,
                        record_of(old(self)@.users[nickname@]),
                    )
                },
                Err(e) => match e {
                    BotError::NotFound(m) => {
                        &&& !old(self)@.users.contains_key(nickname@)
                        &&& m@ == "User not found."@
                        &&& final(self)@.users == old(self)@.users
                        &&& final(store)@ == old(store)@
                    },
                    _ => false,
                },
            },
    {
        if !self.users.contains_key(nickname) {
            return Err(BotError::NotFound("User not found.".to_owned()));
        }
        match self.users.get(nickname) {
            Some(p) => {
                p.save(store);
            },
            None => {
                proof {
                    assert(false);
                }
            },
        }
        let ghost oldnd = self.nicks.deep_view();
        let idx = match find_string(&self.nicks, nickname) {
            Some(i) => i,
            None => {
                proof {
                    assert(false);
                }
                0
            },
        };
        self.nicks.remove(idx);
        self.users.remove(nickname);
        let chan = match self.user_channels.get(nickname) {
            Some(c) => c.clone(),
            None => {
                proof {
                    assert(false);
                }
                String::new()
            },
        };
        proof {
            let nd = self.nicks.deep_view();
            assert(nd =~= oldnd.remove(idx as int));
            assert(oldnd[idx as int] == nickname@);
            assert(nd.no_duplicates()) by {
                assert forall|i: int, j: int|
                    0 <= i < nd.len() && 0 <= j < nd.len() && i != j implies nd[i] != nd[j] by {
                    let i0: int = if i < idx { i } else { i + 1 };
                    let j0: int = if j < idx { j } else { j + 1 };
                    assert(nd[i] == oldnd[i0]);
                    assert(nd[j] == oldnd[j0]);
                }
            }
            assert forall|j: int| 0 <= j < nd.len() implies self.users@.contains_key(
                #[trigger] nd[j],
            ) by {
                let j0: int = if j < idx { j } else { j + 1 };
                assert(nd[j] == oldnd[j0]);
                assert(oldnd[j0] != nickname@);
            }
            assert forall|k: Seq<char>| #[trigger] self.users@.contains_key(k) implies nd.contains(
                k,
            ) by {
                assert(old(self).users@.contains_key(k));
                assert(k != nickname@);
                let j = choose|j: int| 0 <= j < oldnd.len() && oldnd[j] == k;
                assert(j != idx);
                let j1: int = if j < idx { j } else { j - 1 };
                assert(nd[j1] == k);
            }
            assert(self@.users =~= old(self)@.users.remove(nickname@));
            assert(self@.user_channels =~= old(self)@.user_channels);
            assert(self@.games =~= old(self)@.games);
            assert(self@.monsters =~= old(self)@.monsters);
        }
        Ok(chan)
    }

    /// Appends the monster to the channel's list, creating the list when
    /// the channel has none yet, and reports the position it got.
    pub fn add_monster(&mut self, monster: Monster, chan: &str) -> (r: usize)
        requires
            old(self).wf(),
        ensures
            final(self).wf(),
            final(self)@.users == old(self)@.users,
            final(self)@.user_channels == old(self)@.user_channels,
            final(self)@.games == old(self)@.games,
            final(self)@.monsters == old(self)@.monsters.insert(
                chan@,
                channel_monsters(old(self)@, chan@).push(monster@),
            ),
            r as nat == channel_monsters(old(self)@, chan@).len(),
    {
        let ghost m = monster@;
        let mut list = match self.monsters.get(chan) {
            Some(v) => clone_monsters(v),
            None => Vec::new(),
        };
        proof {
            assert(list.deep_view() =~= channel_monsters(old(self)@, chan@));
        }
        list.push(monster);
        let r = list.len() - 1;
        proof {
            assert(list.deep_view() =~= channel_monsters(old(self)@, chan@).push(m));
        }
        self.monsters.insert(chan.to_owned(), list);
        proof {
            assert(self@.monsters =~= old(self)@.monsters.insert(
                chan@,
                channel_monsters(old(self)@, chan@).push(m),
            ));
            assert(self@.users =~= old(self)@.users);
            assert(self@.user_channels =~= old(self)@.user_channels);
            assert(self@.games =~= old(self)@.games);
        }
        r
    }

    /// Resolves an entity reference: `@<index>` names a monster within the
    /// channel's list and needs a channel; any other token names a
    /// logged-in user. The resolved entity is handed out as a copy.
    pub fn get_entity(&self, identifier: &str, chan: Option<&str>) -> (r: BotResult<Entity>)
        ensures
            match r {
                Ok(e) => entity_outcome(self@, identifier@, chan.deep_view())
                    == EntityOutcome::Found(e@),
                Err(e) => match e {
                    BotError::InvalidInput(m) => (entity_outcome(self@, identifier@, chan.deep_view())
                        == EntityOutcome::NonInteger && m@ == "Non-integer identifier."@) || (
                    entity_outcome(self@, identifier@, chan.deep_view())
                        == EntityOutcome::NeedChannel && m@ == "Monsters require a channel."@),
                    BotError::NotFound(m) => (entity_outcome(self@, identifier@, chan.deep_view())
                        == EntityOutcome::NoMonster && m@ == "No such monster."@) || (
                    entity_outcome(self@, identifier@, chan.deep_view()) == EntityOutcome::NoUser
                        && m@ == "User not found."@),
                    _ => false,
                },
            },
    {
        let idlen = identifier.unicode_len();
        if idlen >= 1 && identifier.get_char(0) == '@' {
            let rest = identifier.substring_char(1, idlen);
            match crate::text::parse_usize(rest) {
                None => Err(BotError::InvalidInput("Non-integer identifier.".to_owned())),
                Some(i) => match chan {
                    None => Err(BotError::InvalidInput("Monsters require a channel.".to_owned())),
                    Some(c) => match self.monsters.get(c) {
                        Some(list) => {
                            if i < list.len() {
                                Ok(Entity::Monster(list[i].clone()))
                            } else {
                                Err(BotError::NotFound("No such monster.".to_owned()))
                            }
                        },
                        None => Err(BotError::NotFound("No such monster.".to_owned())),
                    },
                },
            }
        } else {
            match self.users.get(identifier) {
                Some(p) => Ok(Entity::Player(p.clone())),
                None => Err(BotError::NotFound("User not found.".to_owned())),
            }
        }
    }

    /// Persists every logged-in player's record, each keyed by its
    /// account's username.
    pub fn save_all(&self, store: &mut RecordStore)
        requires
            self.wf(),
        ensures
            forall|n: Seq<char>| #[trigger] self@.users.contains_key(n) ==> final(store)@.contains_key(self@.users[n].username),
            forall|u: Seq<char>|
                !has_account(self@, u) ==> #[trigger] final(store)@.contains_key(u) == old(store)@.contains_key(u) && (old(store)@.contains_key(u) ==> final(store)@[u] == old(store)@[u]),
            forall|u: Seq<char>|
                #[trigger] has_account(self@, u) ==> exists|n: Seq<char>|
                    #[trigger] self@.users.contains_key(n) && self@.users[n].username == u && final(store)@[u] == record_of(self@.users[n]),
    {
        let ghost nd = self.nicks.deep_view();
        let mut i: usize = 0;
        while i < self.nicks.len()
            invariant
                self.wf(),
                nd == self.nicks.deep_view(),
                i <= nd.len(),
                forall|j: int| 0 <= j < i ==> store@.contains_key(
                    self@.users[#[trigger] nd[j]].username,
                ),
                forall|u: Seq<char>|
                    !saved_in_prefix(self@, nd, i as int, u) ==> #[trigger] store@.contains_key(u) == old(store)@.contains_key(u) && (old(store)@.contains_key(u) ==> store@[u] == old(store)@[u]),
                forall|u: Seq<char>|
                    #[trigger] saved_in_prefix(self@, nd, i as int, u) ==> exists|j: int|
                        0 <= j < i && self@.users[#[trigger] nd[j]].username == u && store@[u] == record_of(self@.users[nd[j]]),
            decreases nd.len() - i,
        {
            let ghost pre = store@;
            let nick = &self.nicks[i];
            match self.users.get(nick.as_str()) {
                Some(p) => {
                    proof {
                        assert(p@ == self@.users[nd[i as int]]);
                    }
                    p.save(store);
                },
                None => {
                    proof {
                        assert(self.users@.contains_key(nd[i as int]));
                        assert(false);
                    }
                },
            }
            proof {
                let saved = self@.users[nd[i as int]].username;
                assert(store@ == pre.insert(saved, record_of(self@.users[nd[i as int]])));
                assert forall|u: Seq<char>|
                    !saved_in_prefix(self@, nd, i + 1, u) implies #[trigger] store@.contains_key(u) == old(store)@.contains_key(u) && (old(store)@.contains_key(u) ==> store@[u] == old(store)@[u]) by {
                    assert(u != saved);
                    assert(!saved_in_prefix(self@, nd, i as int, u));
                }
                assert forall|u: Seq<char>|
                    #[trigger] saved_in_prefix(self@, nd, i + 1, u) implies exists|j: int|
                        0 <= j < i + 1 && self@.users[#[trigger] nd[j]].username == u && store@[u] == record_of(self@.users[nd[j]]) by {
                    if u == saved {
                        assert(self@.users[nd[i as int]].username == u && store@[u] == record_of(self@.users[nd[i as int]]));
                    } else {
                        let j0 = choose|j0: int| 0 <= j0 < i + 1 && #[trigger] self@.users[nd[j0]].username == u;
                        assert(j0 < i);
                        assert(saved_in_prefix(self@, nd, i as int, u));
                        let j = choose|j: int| 0 <= j < i && #[trigger] self@.users[nd[j]].username == u && pre[u] == record_of(self@.users[nd[j]]);
                        assert(store@[u] == pre[u]);
                        assert(self@.users[nd[j]].username == u && store@[u] == record_of(self@.users[nd[j]]));
                    }
                }
            }
            i = i + 1;
        }
        proof {
            assert forall|n: Seq<char>| #[trigger] self@.users.contains_key(n) implies final(store)@.contains_key(self@.users[n].username) by {
                assert(nd.contains(n));
                let j = choose|j: int| 0 <= j < nd.len() && nd[j] == n;
                assert(store@.contains_key(self@.users[nd[j]].username));
            }
            assert forall|u: Seq<char>| !has_account(self@, u) implies !saved_in_prefix(self@, nd, nd.len() as int, u) by {
                if saved_in_prefix(self@, nd, nd.len() as int, u) {
                    let j = choose|j: int| 0 <= j < nd.len() && #[trigger] self@.users[nd[j]].username == u;
                    assert(self@.users.contains_key(nd[j]));
                }
            }
            assert forall|u: Seq<char>| #[trigger] has_account(self@, u) implies exists|n: Seq<char>|
                #[trigger] self@.users.contains_key(n) && self@.users[n].username == u && final(store)@[u] == record_of(self@.users[n]) by {
                let n0 = choose|n0: Seq<char>| #[trigger] self@.users.contains_key(n0) && self@.users[n0].username == u;
                assert(nd.contains(n0));
                let j0 = choose|j0: int| 0 <= j0 < nd.len() && nd[j0] == n0;
                assert(saved_in_prefix(self@, nd, nd.len() as int, u));
                let j = choose|j: int| 0 <= j < nd.len() && #[trigger] self@.users[nd[j]].username == u && store@[u] == record_of(self@.users[nd[j]]);
                assert(self@.users.contains_key(nd[j]) && self@.users[nd[j]].username == u && final(store)@[u] == record_of(self@.users[nd[j]]));
            }
        }
    }

    /// Attempts a campaign login on the channel: `None` when the channel
    /// has no campaign; otherwise the campaign's own verdict.
    pub fn login_to_game(&mut self, chan: &str, account: Player, nickname: &str, password: &str)
        -> (r: Option<&'static str>)
        requires
            old(self).wf(),
        ensures
            final(self).wf(),
            final(self)@.users == old(self)@.users,
            final(self)@.user_channels == old(self)@.user_channels,
            final(self)@.monsters == old(self)@.monsters,
            match r {
                None => !old(self)@.games.contains_key(chan@) && final(self)@.games == old(self)@.games,
                Some(msg) => {
                    &&& old(self)@.games.contains_key(chan@)
                    &&& (account@.password == password@ ==> final(self)@.games == old(self)@.games.insert(
                        chan@,
                        GameView {
                            name: old(self)@.games[chan@].name,
                            dm_nick: old(self)@.games[chan@].dm_nick,
                            users: old(self)@.games[chan@].users.insert(nickname@, account@),
                        },
                    ) && msg@ == "Login successful."@)
                    &&& (account@.password != password@ ==> final(self)@.games == old(self)@.games && msg@ == "Password incorrect."@)
                },
            },
    {
        let ghost acc = account@;
        match self.games.get(chan) {
            None => None,
            Some(g) => {
                let mut g2 = g.clone();
                let res = g2.login(account, nickname, password);
                self.games.insert(chan.to_owned(), g2);
                proof {
                    if acc.password == password@ {
                        assert(self@.games =~= old(self)@.games.insert(
                            chan@,
                            GameView {
                                name: old(self)@.games[chan@].name,
                                dm_nick: old(self)@.games[chan@].dm_nick,
                                users: old(self)@.games[chan@].users.insert(nickname@, acc),
                            },
                        ));
                    } else {
                        assert(self@.games =~= old(self)@.games);
                    }
                    assert(self@.users =~= old(self)@.users);
                    assert(self@.user_channels =~= old(self)@.user_channels);
                    assert(self@.monsters =~= old(self)@.monsters);
                }
                match res {
                    Ok(msg) => Some(msg),
                    Err(_) => {
                        proof {
                            assert(false);
                        }
                        None
                    },
                }
            },
        }
    }

    /// Appends a feat to the named user's logged-in account; reports
    /// whether such a session exists.
    pub fn add_feat_to_user(&mut self, nickname: &str, feat: &str) -> (r: bool)
        requires
            old(self).wf(),
        ensures
            final(self).wf(),
            final(self)@.user_channels == old(self)@.user_channels,
            final(self)@.games == old(self)@.games,
            final(self)@.monsters == old(self)@.monsters,
            r == old(self)@.users.contains_key(nickname@),
            r ==> final(self)@.users == old(self)@.users.insert(
                nickname@,
                PlayerView {
                    feats: old(self)@.users[nickname@].feats.push(feat@),
                    ..old(self)@.users[nickname@]
                },
            ),
            !r ==> final(self)@.users == old(self)@.users,
    {
        let mut player = match self.users.get(nickname) {
            Some(p) => p.clone(),
            None => {
                proof {
                    assert(self@.users =~= old(self)@.users);
                }
                return false;
            },
        };
        player.add_feat(feat);
        self.users.insert(nickname.to_owned(), player);
        proof {
            assert(self@.users =~= old(self)@.users.insert(
                nickname@,
                PlayerView {
                    feats: old(self)@.users[nickname@].feats.push(feat@),
                    ..old(self)@.users[nickname@]
                },
            ));
            assert(self@.user_channels =~= old(self)@.user_channels);
            assert(self@.games =~= old(self)@.games);
            assert(self@.monsters =~= old(self)@.monsters);
            let nd = self.nicks.deep_view();
            assert forall|k: Seq<char>| #[trigger] self.users@.contains_key(k) implies nd.contains(
                k,
            ) by {
                assert(old(self).users@.contains_key(k));
            }
        }
        true
    }

    /// Looks the channel's campaign up.
    pub fn get_game(&self, chan: &str) -> (r: BotResult<&Game>)
        ensures
            match r {
                Ok(g) => self@.games.contains_key(chan@) && g@ == self@.games[chan@],
                Err(e) => match e {
                    BotError::NotFound(m) => !self@.games.contains_key(chan@) && m@
                        == "Game not found."@,
                    _ => false,
                },
            },
    {
        match self.games.get(chan) {
            Some(g) => Ok(g),
            None => Err(BotError::NotFound("Game not found.".to_owned())),
        }
    }
}

} // verus!
