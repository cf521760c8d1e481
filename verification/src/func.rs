//! The command-functionality protocol: each command is validated while it
//! is constructed (no mutation), then executed exactly once, producing one
//! state change and one reply.

use vstd::prelude::*;
use vstd::string::*;
use crate::entity::EntityView;
use crate::monster::{Monster, MonsterView};
use crate::stats::MonsterStats;
use crate::text::{append_dec, dec_rep, parse_u8_or_zero, str_to_u8};
use crate::world::{channel_monsters, entity_outcome, EntityOutcome, World};
use crate::{BotError, BotResult};

verus! {

pub open spec fn no_game_text(chan: Seq<char>) -> Seq<char> {
    "There is no game in "@ + chan + "."@
}

pub open spec fn not_dm_text(chan: Seq<char>) -> Seq<char> {
    "You must be the game master of "@ + chan + " to do that."@
}

pub open spec fn incorrect_format_text(cmd: Seq<char>, fmt: Seq<char>) -> Seq<char> {
    "Incorrect format for "@ + cmd + ". Format is:\r\n"@ + cmd + " "@ + fmt
}

pub open spec fn invalid_stats_text(cmd: Seq<char>, fmt: Seq<char>) -> Seq<char> {
    "Stats must be non-zero positive integers. Format is:\r\n"@ + cmd + " "@ + fmt
}

pub open spec fn not_monster_text(target: Seq<char>) -> Seq<char> {
    target + " is not a valid monster."@
}

pub open spec fn not_stat_text(stat: Seq<char>) -> Seq<char> {
    stat + " is not a valid stat."@
}

pub open spec fn add_monster_reply(name: Seq<char>, index: nat) -> Seq<char> {
    "Monster ("@ + name + ") has been created as @"@ + dec_rep(index) + "."@
}

/// The `Temp. ` marker announcing an active temporary-stats overlay.
pub open spec fn temp_prefix(e: EntityView) -> Seq<char> {
    if e.spec_has_temp_stats() {
        "Temp. "@
    } else {
        Seq::empty()
    }
}

/// The whole-stats lookup reply.
pub open spec fn lookup_reply(e: EntityView, target: Seq<char>) -> Seq<char> {
    e.spec_identifier() + " ("@ + target + "): "@ + temp_prefix(e) + e.spec_stats_text()
}

/// The single-stat lookup reply.
pub open spec fn stat_reply(e: EntityView, target: Seq<char>, value: u8, stat: Seq<char>)
    -> Seq<char> {
    e.spec_identifier() + " ("@ + target + "): "@ + temp_prefix(e) + dec_rep(value as nat) + " "@
        + stat
}

/// All designated argument tokens from `from` on read as non-zero small
/// numbers.
pub open spec fn all_stats_valid(args: Seq<Seq<char>>, from: int) -> bool {
    forall|j: int| from <= j < args.len() ==> parse_u8_or_zero(#[trigger] args[j]) != 0
}

/// The permission rule: the issuer must be the game master of the target
/// channel's campaign.
pub fn permissions_test(user: &str, chan: &str, world: &World) -> (r: BotResult<()>)
    ensures
        match r {
            Ok(_) => world@.games.contains_key(chan@) && world@.games[chan@].dm_nick == user@,
            Err(e) => match e {
                BotError::Propagated(resp, msg) => resp@ == user@ && ((!world@.games.contains_key(
                    chan@,
                ) && msg@ == no_game_text(chan@)) || (world@.games.contains_key(chan@)
                    && world@.games[chan@].dm_nick != user@ && msg@ == not_dm_text(chan@))),
                _ => false,
            },
        },
{
    match world.get_game(chan) {
        Ok(game) => {
            if game.is_dm(user) {
                Ok(())
            } else {
                let mut msg = String::new();
                msg.append("You must be the game master of ");
                msg.append(chan);
                msg.append(" to do that.");
                proof {
                    assert(msg@ =~= not_dm_text(chan@));
                }
                Err(BotError::Propagated(user.to_owned(), msg))
            }
        },
        Err(_) => {
            let mut msg = String::new();
            msg.append("There is no game in ");
            msg.append(chan);
            msg.append(".");
            proof {
                assert(msg@ =~= no_game_text(chan@));
            }
            Err(BotError::Propagated(user.to_owned(), msg))
        },
    }
}

/// The usage message for a wrong argument count.
pub fn incorrect_format(user: &str, cmd: &str, fmt: &str) -> (r: BotError)
    ensures
        match r {
            BotError::Propagated(resp, msg) => resp@ == user@ && msg@ == incorrect_format_text(
                cmd@,
                fmt@,
            ),
            _ => false,
        },
{
    let mut msg = String::new();
    msg.append("Incorrect format for ");
    msg.append(cmd);
    msg.append(". Format is:\r\n");
    msg.append(cmd);
    msg.append(" ");
    msg.append(fmt);
    proof {
        assert(msg@ =~= incorrect_format_text(cmd@, fmt@));
    }
    BotError::Propagated(user.to_owned(), msg)
}

/// Whether every argument token from `from` on reads as a non-zero small
/// number.
pub fn stats_valid_from(args: &Vec<&str>, from: usize) -> (r: bool)
    ensures
        r == all_stats_valid(args.deep_view(), from as int),
{
    let ghost av = args.deep_view();
    let mut valid = true;
    let mut i: usize = from;
    while i < args.len()
        invariant
            from <= i,
            i <= args.len() || i == from,
            av == args.deep_view(),
            valid == (forall|j: int| from <= j < i ==> parse_u8_or_zero(#[trigger] av[j]) != 0),
        decreases args.len() - i,
    {
        proof {
            assert(av[i as int] == args@[i as int]@);
        }
        if str_to_u8(args[i]) == 0 {
            valid = false;
        }
        i = i + 1;
    }
    valid
}

/// Checks that every argument token from `from` on is a non-zero small
/// number; one aggregated error covers any failure.
pub fn validate_from(args: &Vec<&str>, from: usize, user: &str, cmd: &str, fmt: &str) -> (r:
    BotResult<()>)
    ensures
        match r {
            Ok(_) => all_stats_valid(args.deep_view(), from as int),
            Err(e) => match e {
                BotError::Propagated(resp, msg) => !all_stats_valid(args.deep_view(), from as int)
                    && resp@ == user@ && msg@ == invalid_stats_text(cmd@, fmt@),
                _ => false,
            },
        },
{
    if stats_valid_from(args, from) {
        Ok(())
    } else {
        let mut msg = String::new();
        msg.append("Stats must be non-zero positive integers. Format is:\r\n");
        msg.append(cmd);
        msg.append(" ");
        msg.append(fmt);
        proof {
            assert(msg@ =~= invalid_stats_text(cmd@, fmt@));
        }
        Err(BotError::Propagated(user.to_owned(), msg))
    }
}

/// A validated monster-creation command, ready to execute once.
pub struct AddMonster {
    pub chan: String,
    pub name: String,
    pub health: u8,
    pub st: u8,
    pub dx: u8,
    pub cn: u8,
    pub ws: u8,
    pub it: u8,
    pub ch: u8,
}

impl AddMonster {
    /// Validates a monster-creation invocation: permission first, then
    /// arity, then the numeric arguments; nothing is mutated here.
    pub fn new(user: &str, args: Vec<&str>, world: &World) -> (r: BotResult<AddMonster>)
        requires
            args.deep_view().len() >= 2,
        ensures
            ({
                let av = args.deep_view();
                match r {
                    Ok(cmd) => {
                        &&& world@.games.contains_key(av[1])
                        &&& world@.games[av[1]].dm_nick == user@
                        &&& av.len() == 10
                        &&& all_stats_valid(av, 3)
                        &&& cmd.chan@ == av[1]
                        &&& cmd.name@ == av[2]
                        &&& cmd.health as nat == parse_u8_or_zero(av[3])
                        &&& cmd.st as nat == parse_u8_or_zero(av[4])
                        &&& cmd.dx as nat == parse_u8_or_zero(av[5])
                        &&& cmd.cn as nat == parse_u8_or_zero(av[6])
                        &&& cmd.ws as nat == parse_u8_or_zero(av[7])
                        &&& cmd.it as nat == parse_u8_or_zero(av[8])
                        &&& cmd.ch as nat == parse_u8_or_zero(av[9])
                    },
                    Err(e) => match e {
                        BotError::Propagated(resp, msg) => resp@ == user@ && ((
                        !world@.games.contains_key(av[1]) && msg@ == no_game_text(av[1])) || (
                        world@.games.contains_key(av[1]) && world@.games[av[1]].dm_nick != user@
                            && msg@ == not_dm_text(av[1])) || (world@.games.contains_key(av[1])
                            && world@.games[av[1]].dm_nick == user@ && av.len() != 10 && msg@
                            == incorrect_format_text(
                            "addmonster"@,
                            "chan name health str dex con wis int cha"@,
                        )) || (world@.games.contains_key(av[1]) && world@.games[av[1]].dm_nick
                            == user@ && av.len() == 10 && !all_stats_valid(av, 3) && msg@
                            == invalid_stats_text(
                            "addmonster"@,
                            "chan name health str dex con wis int cha"@,
                        ))),
                        _ => false,
                    },
                }
            }),
    {
        if let Err(perm) = permissions_test(user, args[1], world) {
            return Err(perm);
        }
        if args.len() != 10 {
            return Err(
                incorrect_format(user, "addmonster", "chan name health str dex con wis int cha"),
            );
        }
        if let Err(inv) = validate_from(&args, 3, user, "addmonster", "chan name health str dex con wis int cha") {
            return Err(inv);
        }
        Ok(
            AddMonster {
                chan: args[1].to_owned(),
                name: args[2].to_owned(),
                health: str_to_u8(args[3]),
                st: str_to_u8(args[4]),
                dx: str_to_u8(args[5]),
                cn: str_to_u8(args[6]),
                ws: str_to_u8(args[7]),
                it: str_to_u8(args[8]),
                ch: str_to_u8(args[9]),
            },
        )
    }

    /// The monster this command will create.
    pub open spec fn monster_view(&self) -> MonsterView {
        MonsterView {
            name: self.name@,
            stats: MonsterStats {
                health: self.health,
                strength: self.st,
                dexterity: self.dx,
                constitution: self.cn,
                wisdom: self.ws,
                intellect: self.it,
                charisma: self.ch,
            },
            temp_stats: None,
        }
    }

    /// Executes the command: appends the monster to the channel's list and
    /// reports the position it got.
    pub fn do_func(&self, world: &mut World) -> (r: BotResult<String>)
        requires
            old(world).wf(),
        ensures
            final(world).wf(),
            final(world)@.users == old(world)@.users,
            final(world)@.user_channels == old(world)@.user_channels,
            final(world)@.games == old(world)@.games,
            final(world)@.monsters == old(world)@.monsters.insert(
                self.chan@,
                channel_monsters(old(world)@, self.chan@).push(self.monster_view()),
            ),
            r is Ok,
            r->Ok_0@ == add_monster_reply(
                self.name@,
                channel_monsters(old(world)@, self.chan@).len(),
            ),
    {
        let m = Monster::create(
            self.name.as_str(),
            self.health,
            self.st,
            self.dx,
            self.cn,
            self.ws,
            self.it,
            self.ch,
        );
        let index = world.add_monster(m, self.chan.as_str());
        let mut reply = String::new();
        reply.append("Monster (");
        reply.append(self.name.as_str());
        reply.append(") has been created as @");
        append_dec(&mut reply, index);
        reply.append(".");
        proof {
            assert(reply@ =~= add_monster_reply(
                self.name@,
                channel_monsters(old(world)@, self.chan@).len(),
            ));
        }
        Ok(reply)
    }
}

/// A validated monster-lookup command, ready to execute once.
pub struct LookUpMonster {
    pub user: String,
    pub chan: String,
    pub target: String,
    pub stat: Option<String>,
}

impl LookUpMonster {
    /// Validates a lookup invocation: permission first (a permission
    /// failure preempts all other validation), then arity, then the
    /// target's shape; nothing is mutated here.
    pub fn new(user: &str, args: Vec<&str>, world: &World) -> (r: BotResult<LookUpMonster>)
        requires
            args.deep_view().len() >= 2,
        ensures
            ({
                let av = args.deep_view();
                match r {
                    Ok(cmd) => {
                        &&& world@.games.contains_key(av[1])
                        &&& world@.games[av[1]].dm_nick == user@
                        &&& (av.len() == 3 || av.len() == 4)
                        &&& av[2].len() >= 1 && av[2][0] == '@'
                        &&& cmd.user@ == user@
                        &&& cmd.chan@ == av[1]
                        &&& cmd.target@ == av[2]
                        &&& (av.len() == 4 ==> (cmd.stat matches Some(s) && s@ == av[3]))
                        &&& (av.len() == 3 ==> cmd.stat is None)
                    },
                    Err(e) => match e {
                        BotError::Propagated(resp, msg) => resp@ == user@ && ((
                        !world@.games.contains_key(av[1]) && msg@ == no_game_text(av[1])) || (
                        world@.games.contains_key(av[1]) && world@.games[av[1]].dm_nick != user@
                            && msg@ == not_dm_text(av[1])) || (world@.games.contains_key(av[1])
                            && world@.games[av[1]].dm_nick == user@ && av.len() != 3 && av.len()
                            != 4 && msg@ == incorrect_format_text(
                            "mlookup"@,
                            "channel target [stat]"@,
                        )) || (world@.games.contains_key(av[1]) && world@.games[av[1]].dm_nick
                            == user@ && (av.len() == 3 || av.len() == 4) && !(av[2].len() >= 1
                            && av[2][0] == '@') && msg@ == not_monster_text(av[2]))),
                        _ => false,
                    },
                }
            }),
    {
        if let Err(perm) = permissions_test(user, args[1], world) {
            return Err(perm);
        }
        if args.len() != 3 && args.len() != 4 {
            return Err(incorrect_format(user, "mlookup", "channel target [stat]"));
        }
        let tlen = args[2].unicode_len();
        if !(tlen >= 1 && args[2].get_char(0) == '@') {
            let mut msg = String::new();
            msg.append(args[2]);
            msg.append(" is not a valid monster.");
            proof {
                assert(msg@ =~= not_monster_text(args.deep_view()[2]));
            }
            return Err(BotError::Propagated(user.to_owned(), msg));
        }
        let stat: Option<String> = if args.len() == 4 {
            Some(args[3].to_owned())
        } else {
            None
        };
        Ok(
            LookUpMonster {
                user: user.to_owned(),
                chan: args[1].to_owned(),
                target: args[2].to_owned(),
                stat,
            },
        )
    }

    /// Executes the lookup: resolves the target in the channel, then
    /// reports either the whole effective attribute block or one named
    /// attribute, with a `Temp. ` marker while an overlay is active.
    pub fn do_func(&self, world: &World) -> (r: BotResult<String>)
        ensures
            ({
                let out = entity_outcome(world@, self.target@, Some(self.chan@));
                match r {
                    Ok(reply) => match out {
                        EntityOutcome::Found(e) => (self.stat matches Some(s)
                            && e.spec_get_stat(s@) matches Some(v) && reply@ == stat_reply(
                            e,
                            self.target@,
                            v,
                            s@,
                        )) || (self.stat is None && reply@ == lookup_reply(e, self.target@)),
                        _ => false,
                    },
                    Err(e) => match e {
                        BotError::Propagated(resp, msg) => resp@ == self.user@ && (!(out
                            matches EntityOutcome::Found(_)) && msg@ == not_monster_text(
                            self.target@,
                        ) || (out matches EntityOutcome::Found(ev) && self.stat matches Some(s)
                            && ev.spec_get_stat(s@) is None && msg@ == not_stat_text(s@))),
                        _ => false,
                    },
                }
            }),
    {
        let target = match world.get_entity(self.target.as_str(), Some(self.chan.as_str())) {
            Ok(e) => e,
            Err(_) => {
                let mut msg = String::new();
                msg.append(self.target.as_str());
                msg.append(" is not a valid monster.");
                proof {
                    assert(msg@ =~= not_monster_text(self.target@));
                }
                return Err(BotError::Propagated(self.user.clone(), msg));
            },
        };
        let identifier = target.identifier();
        let mut reply = String::new();
        reply.append(identifier.as_str());
        reply.append(" (");
        reply.append(self.target.as_str());
        reply.append("): ");
        if target.has_temp_stats() {
            reply.append("Temp. ");
        }
        match &self.stat {
            None => {
                let text = target.stats_text();
                reply.append(text.as_str());
                proof {
                    assert(reply@ =~= lookup_reply(target@, self.target@));
                }
                Ok(reply)
            },
            Some(stat) => {
                match target.get_stat(stat.as_str()) {
                    Some(value) => {
                        append_dec(&mut reply, value as usize);
                        reply.append(" ");
                        reply.append(stat.as_str());
                        proof {
                            assert(reply@ =~= stat_reply(target@, self.target@, value, stat@));
                        }
                        Ok(reply)
                    },
                    None => {
                        let mut msg = String::new();
                        msg.append(stat.as_str());
                        msg.append(" is not a valid stat.");
                        proof {
                            assert(msg@ =~= not_stat_text(stat@));
                        }
                        Err(BotError::Propagated(self.user.clone(), msg))
                    },
                }
            },
        }
    }
}

} // verus!
