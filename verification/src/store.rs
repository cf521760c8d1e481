//! The keyed structured-record store behind player persistence.
//!
//! A record is an ordered list of plain text fields; how records reach the
//! disk (and in which concrete encoding) is the surrounding program's
//! business. The store itself, the record layout, and the round trip from
//! player to record and back are verified here.

use vstd::prelude::*;
use vstd::string::*;
use vstd::hash_map::StringHashMap;
use crate::player::{Player, PlayerView};
use crate::stats::Stats;
use crate::text::{all_digits, append_dec, dec_rep, dec_val};
use crate::{BotError, BotResult};

verus! {

/// One record per player, keyed by username.
pub struct RecordStore {
    records: StringHashMap<Vec<String>>,
}

impl View for RecordStore {
    type V = Map<Seq<char>, Seq<Seq<char>>>;

    closed spec fn view(&self) -> Map<Seq<char>, Seq<Seq<char>>> {
        self.records@.map_values(|v: Vec<String>| v.deep_view())
    }
}

/// The stored form of a player: username, password, the six attributes as
/// base-ten numerals, then the feats in order.
pub open spec fn record_of(p: PlayerView) -> Seq<Seq<char>> {
    seq![
        p.username,
        p.password,
        dec_rep(p.stats.strength as nat),
        dec_rep(p.stats.dexterity as nat),
        dec_rep(p.stats.constitution as nat),
        dec_rep(p.stats.wisdom as nat),
        dec_rep(p.stats.intellect as nat),
        dec_rep(p.stats.charisma as nat),
    ] + p.feats
}

/// An attribute field decodes iff it is a numeral for a value that fits
/// the attribute's range.
pub open spec fn stat_field(s: Seq<char>) -> Option<u8> {
    if s.len() > 0 && all_digits(s) && dec_val(s) <= 255 {
        Some(dec_val(s) as u8)
    } else {
        None
    }
}

/// Reading a record back: `None` on too few fields or a malformed
/// attribute numeral.
pub open spec fn player_of_record(r: Seq<Seq<char>>) -> Option<PlayerView> {
    if r.len() < 8 {
        None
    } else if stat_field(r[2]) is None || stat_field(r[3]) is None || stat_field(r[4]) is None
        || stat_field(r[5]) is None || stat_field(r[6]) is None || stat_field(r[7]) is None {
        None
    } else {
        Some(
            PlayerView {
                username: r[0],
                password: r[1],
                stats: Stats {
                    strength: stat_field(r[2])->Some_0,
                    dexterity: stat_field(r[3])->Some_0,
                    constitution: stat_field(r[4])->Some_0,
                    wisdom: stat_field(r[5])->Some_0,
                    intellect: stat_field(r[6])->Some_0,
                    charisma: stat_field(r[7])->Some_0,
                },
                feats: r.subrange(8, r.len() as int),
            },
        )
    }
}

/// Round trip: a player's record always reads back as that player.
pub proof fn lemma_record_round_trip(p: PlayerView)
    ensures
        player_of_record(record_of(p)) == Some(p),
{
    let r = record_of(p);
    crate::text::lemma_dec_rep_digits(p.stats.strength as nat);
    crate::text::lemma_dec_rep_val(p.stats.strength as nat);
    crate::text::lemma_dec_rep_digits(p.stats.dexterity as nat);
    crate::text::lemma_dec_rep_val(p.stats.dexterity as nat);
    crate::text::lemma_dec_rep_digits(p.stats.constitution as nat);
    crate::text::lemma_dec_rep_val(p.stats.constitution as nat);
    crate::text::lemma_dec_rep_digits(p.stats.wisdom as nat);
    crate::text::lemma_dec_rep_val(p.stats.wisdom as nat);
    crate::text::lemma_dec_rep_digits(p.stats.intellect as nat);
    crate::text::lemma_dec_rep_val(p.stats.intellect as nat);
    crate::text::lemma_dec_rep_digits(p.stats.charisma as nat);
    crate::text::lemma_dec_rep_val(p.stats.charisma as nat);
    assert(r.subrange(8, r.len() as int) =~= p.feats);
    assert(player_of_record(r)->Some_0 == p);
}

/// Round trip through the store: after saving a player, loading by its
/// username reads back exactly that player, whatever the store held
/// before.
pub proof fn lemma_save_load_round_trip(store: Map<Seq<char>, Seq<Seq<char>>>, p: PlayerView)
    ensures
        store.insert(p.username, record_of(p)).contains_key(p.username),
        player_of_record(store.insert(p.username, record_of(p))[p.username]) == Some(p),
{
    lemma_record_round_trip(p);
}

impl RecordStore {
    /// An empty store.
    pub fn new() -> (r: RecordStore)
        ensures
            r@ == Map::<Seq<char>, Seq<Seq<char>>>::empty(),
    {
        let r = RecordStore { records: StringHashMap::new() };
        proof {
            assert(r@ =~= Map::<Seq<char>, Seq<Seq<char>>>::empty());
        }
        r
    }

    /// Writes a raw record under a key, replacing any previous one.
    pub fn put_record(&mut self, key: String, record: Vec<String>)
        ensures
            final(self)@ == old(self)@.insert(key@, record.deep_view()),
    {
        let ghost k = key@;
        let ghost d = record.deep_view();
        self.records.insert(key, record);
        proof {
            assert(self@ =~= old(self)@.insert(k, d));
        }
    }

    /// Reads the raw record under a key, if one exists.
    pub fn get_record(&self, key: &str) -> (r: Option<&Vec<String>>)
        ensures
            match r {
                Some(v) => self@.contains_key(key@) && v.deep_view() == self@[key@],
                None => !self@.contains_key(key@),
            },
    {
        self.records.get(key)
    }

    /// Membership test on the stored usernames.
    pub fn contains(&self, key: &str) -> (r: bool)
        ensures
            r == self@.contains_key(key@),
    {
        self.records.contains_key(key)
    }
}

/// Renders a small number for a record field.
fn dec_string(n: u8) -> (r: String)
    ensures
        r@ == dec_rep(n as nat),
{
    let mut s = String::new();
    append_dec(&mut s, n as usize);
    proof {
        assert(s@ =~= dec_rep(n as nat));
    }
    s
}

impl Player {
    /// Persists this account, keyed by username, overwriting any previous
    /// record for it.
    pub fn save(&self, store: &mut RecordStore)
        ensures
            final(store)@ == old(store)@.insert(self@.username, record_of(self@)),
    {
        let mut rec: Vec<String> = Vec::new();
        rec.push(self.username.clone());
        rec.push(self.password.clone());
        rec.push(dec_string(self.stats.strength));
        rec.push(dec_string(self.stats.dexterity));
        rec.push(dec_string(self.stats.constitution));
        rec.push(dec_string(self.stats.wisdom));
        rec.push(dec_string(self.stats.intellect));
        rec.push(dec_string(self.stats.charisma));
        let mut i: usize = 0;
        while i < self.feats.len()
            invariant
                i <= self.feats.len(),
                rec.len() == 8 + i,
                rec.deep_view() =~= record_of(self@).subrange(0, 8 + i as int),
            decreases self.feats.len() - i,
        {
            rec.push(self.feats[i].clone());
            proof {
                assert(rec.deep_view() =~= record_of(self@).subrange(0, 8 + i + 1));
            }
            i = i + 1;
        }
        proof {
            assert(rec.deep_view() =~= record_of(self@));
        }
        store.put_record(self.username.clone(), rec);
    }

    /// Loads the account stored under `username`.
    ///
    /// Succeeds exactly when a record exists and reads back as a player;
    /// a missing record and a malformed one are told apart.
    pub fn load(username: &str, store: &RecordStore) -> (r: BotResult<Player>)
        ensures
            match r {
                Ok(p) => store@.contains_key(username@) && player_of_record(store@[username@])
                    == Some(p@),
                Err(e) => match e {
                    BotError::NotFound(m) => !store@.contains_key(username@) && m@
                        == "Record not found."@,
                    BotError::InvalidInput(m) => store@.contains_key(username@)
                        && player_of_record(store@[username@]) is None && m@ == "Decoder error."@,
                    _ => false,
                },
            },
    {
        let rec = match store.get_record(username) {
            Some(rec) => rec,
            None => {
                return Err(BotError::NotFound("Record not found.".to_owned()));
            },
        };
        if rec.len() < 8 {
            return Err(BotError::InvalidInput("Decoder error.".to_owned()));
        }
        let strength = match parse_stat(&rec[2]) {
            Some(v) => v,
            None => {
                return Err(BotError::InvalidInput("Decoder error.".to_owned()));
            },
        };
        let dexterity = match parse_stat(&rec[3]) {
            Some(v) => v,
            None => {
                return Err(BotError::InvalidInput("Decoder error.".to_owned()));
            },
        };
        let constitution = match parse_stat(&rec[4]) {
            Some(v) => v,
            None => {
                return Err(BotError::InvalidInput("Decoder error.".to_owned()));
            },
        };
        let wisdom = match parse_stat(&rec[5]) {
            Some(v) => v,
            None => {
                return Err(BotError::InvalidInput("Decoder error.".to_owned()));
            },
        };
        let intellect = match parse_stat(&rec[6]) {
            Some(v) => v,
            None => {
                return Err(BotError::InvalidInput("Decoder error.".to_owned()));
            },
        };
        let charisma = match parse_stat(&rec[7]) {
            Some(v) => v,
            None => {
                return Err(BotError::InvalidInput("Decoder error.".to_owned()));
            },
        };
        let mut feats: Vec<String> = Vec::new();
        let mut i: usize = 8;
        while i < rec.len()
            invariant
                8 <= i <= rec.len(),
                rec.deep_view() == store@[username@],
                store@.contains_key(username@),
                feats.len() == i - 8,
                forall|j: int| 0 <= j < i - 8 ==> feats.deep_view()[j] == rec.deep_view()[8 + j],
            decreases rec.len() - i,
        {
            let f = rec[i].clone();
            proof {
                assert(f@ == rec.deep_view()[i as int]);
            }
            let ghost pre = feats.deep_view();
            feats.push(f);
            proof {
                assert forall|j: int| 0 <= j < i + 1 - 8 implies feats.deep_view()[j]
                    == rec.deep_view()[8 + j] by {
                    if j < i - 8 {
                        assert(feats.deep_view()[j] == pre[j]);
                    } else {
                        assert(feats.deep_view()[j] == f@);
                        assert(8 + j == i as int);
                    }
                }
            }
            i = i + 1;
        }
        proof {
            assert(feats.deep_view() =~= rec.deep_view().subrange(
                8,
                rec.deep_view().len() as int,
            ));
        }
        let p = Player {
            username: rec[0].clone(),
            password: rec[1].clone(),
            stats: Stats { strength, dexterity, constitution, wisdom, intellect, charisma },
            feats,
        };
        proof {
            assert(player_of_record(store@[username@]) == Some(p@));
        }
        Ok(p)
    }
}

/// Reads one attribute field of a record.
fn parse_stat(s: &String) -> (r: Option<u8>)
    ensures
        r == stat_field(s@),
{
    match crate::text::parse_usize(s.as_str()) {
        Some(v) => {
            if v <= 255 {
                Some(v as u8)
            } else {
                None
            }
        },
        None => None,
    }
}

} // verus!
