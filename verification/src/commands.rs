//! The private-message commands of the chat front end: registration,
//! login and logout, campaign creation, and feats. Each handler validates
//! first, mutates at most once, and reports its replies as plain lines;
//! delivering them (and any channel housekeeping) is the caller's part.

use vstd::prelude::*;
use vstd::string::*;
use crate::func::{all_stats_valid, stats_valid_from};
use crate::game::GameView;
use crate::player::{Player, PlayerView};
use crate::stats::Stats;
use crate::store::{record_of, RecordStore};
use crate::text::{join_from, join_range, parse_u8_or_zero, str_to_u8};
use crate::world::World;

verus! {

pub open spec fn account_created_text(username: Seq<char>) -> Seq<char> {
    "Your account ("@ + username + ") has been created."@
}

pub open spec fn account_missing_text(username: Seq<char>) -> Seq<char> {
    "Account "@ + username + " does not exist, or could not be loaded."@
}

pub open spec fn game_not_found_text(chan: Seq<char>) -> Seq<char> {
    "Game not found on channel "@ + chan + "."@
}

pub open spec fn campaign_created_text(name: Seq<char>) -> Seq<char> {
    "Campaign created named "@ + name + "."@
}

pub open spec fn added_feat_text(name: Seq<char>) -> Seq<char> {
    "Added "@ + name + " feat."@
}

/// The account a registration with these parameters creates.
pub open spec fn registered_player(pv: Seq<Seq<char>>) -> PlayerView {
    PlayerView {
        username: pv[1],
        password: pv[2],
        stats: Stats {
            strength: parse_u8_or_zero(pv[3]) as u8,
            dexterity: parse_u8_or_zero(pv[4]) as u8,
            constitution: parse_u8_or_zero(pv[5]) as u8,
            wisdom: parse_u8_or_zero(pv[6]) as u8,
            intellect: parse_u8_or_zero(pv[7]) as u8,
            charisma: parse_u8_or_zero(pv[8]) as u8,
        },
        feats: Seq::empty(),
    }
}

/// Creates and persists a fresh account; the command carries the
/// username, the password, and the six attributes.
pub fn do_register(store: &mut RecordStore, resp: &str, params: Vec<&str>) -> (r: Vec<String>)
    ensures
        ({
            let pv = params.deep_view();
            if pv.len() == 9 && all_stats_valid(pv, 3) {
                &&& final(store)@ == old(store)@.insert(pv[1], record_of(registered_player(pv)))
                &&& r.deep_view() =~= seq![account_created_text(pv[1])]
            } else if pv.len() == 9 {
                &&& final(store)@ == old(store)@
                &&& r.deep_view() =~= seq![
                    "Stats must be non-zero positive integers. Format is: "@,
                    "register username password str dex con wis int cha"@,
                ]
            } else {
                &&& final(store)@ == old(store)@
                &&& r.deep_view() =~= seq![
                    "Incorrect format for registration. Format is:"@,
                    "register username password str dex con wis int cha"@,
                ]
            }
        }),
{
    let mut replies: Vec<String> = Vec::new();
    if params.len() == 9 {
        if stats_valid_from(&params, 3) {
            let p = match Player::create(
                params[1],
                params[2],
                str_to_u8(params[3]),
                str_to_u8(params[4]),
                str_to_u8(params[5]),
                str_to_u8(params[6]),
                str_to_u8(params[7]),
                str_to_u8(params[8]),
            ) {
                Ok(p) => p,
                Err(_) => {
                    proof {
                        assert(false);
                    }
                    return replies;
                },
            };
            proof {
                assert(p@ == registered_player(params.deep_view()));
            }
            p.save(store);
            let mut line = String::new();
            line.append("Your account (");
            line.append(params[1]);
            line.append(") has been created.");
            proof {
                assert(line@ =~= account_created_text(params.deep_view()[1]));
            }
            replies.push(line);
        } else {
            replies.push("Stats must be non-zero positive integers. Format is: ".to_owned());
            replies.push("register username password str dex con wis int cha".to_owned());
        }
    } else {
        replies.push("Incorrect format for registration. Format is:".to_owned());
        replies.push("register username password str dex con wis int cha".to_owned());
    }
    replies
}

/// Loads an account, binds the session to the channel, and attempts the
/// campaign login there. The second result names the channel the caller
/// should be invited into after a successful login.
pub fn do_login(world: &mut World, store: &RecordStore, resp: &str, params: Vec<&str>) -> (r: (
    Vec<String>,
    Option<String>,
))
    requires
        old(world).wf(),
    ensures
        final(world).wf(),
        final(world)@.monsters == old(world)@.monsters,
        ({
            let pv = params.deep_view();
            let w0 = old(world)@;
            let w1 = final(world)@;
            if pv.len() != 4 {
                &&& w1 == w0
                &&& r.0.deep_view() =~= seq![
                    "Incorrect format for login: Format is:"@,
                    "login username password channel"@,
                ]
                &&& r.1 is None
            } else if store@.contains_key(pv[1]) && crate::store::player_of_record(store@[pv[1]]) is Some {
                let p = crate::store::player_of_record(store@[pv[1]])->Some_0;
                if !w0.users.contains_key(resp@) {
                    &&& w1.users == w0.users.insert(resp@, p)
                    &&& w1.user_channels == w0.user_channels.insert(resp@, pv[3])
                    &&& if w0.games.contains_key(pv[3]) {
                        if p.password == pv[2] {
                            &&& w1.games == w0.games.insert(
                                pv[3],
                                GameView {
                                    name: w0.games[pv[3]].name,
                                    dm_nick: w0.games[pv[3]].dm_nick,
                                    users: w0.games[pv[3]].users.insert(resp@, p),
                                },
                            )
                            &&& r.0.deep_view() =~= seq!["Login successful."@]
                            &&& (r.1 matches Some(c) && c@ == pv[3])
                        } else {
                            &&& w1.games == w0.games
                            &&& r.0.deep_view() =~= seq!["Password incorrect."@]
                            &&& r.1 is None
                        }
                    } else {
                        &&& w1.games == w0.games
                        &&& r.0.deep_view() =~= seq![game_not_found_text(pv[3])]
                        &&& r.1 is None
                    }
                } else {
                    &&& w1 == w0
                    &&& r.0.deep_view() =~= seq![
                        "You can only be logged into one account at once."@,
                        "Use logout to log out."@,
                    ]
                    &&& r.1 is None
                }
            } else {
                &&& w1 == w0
                &&& r.0.deep_view() =~= seq![account_missing_text(pv[1])]
                &&& r.1 is None
            }
        }),
{
    let mut replies: Vec<String> = Vec::new();
    if params.len() != 4 {
        replies.push("Incorrect format for login: Format is:".to_owned());
        replies.push("login username password channel".to_owned());
        return (replies, None);
    }
    let loaded = Player::load(params[1], store);
    match loaded {
        Ok(p) => {
            if !world.is_user_logged_in(resp) {
                world.add_user(resp, params[3], p.clone());
                match world.login_to_game(params[3], p, resp, params[2]) {
                    Some(res) => {
                        replies.push(res.to_owned());
                        proof {
                            reveal_strlit("Login successful.");
                            reveal_strlit("Password incorrect.");
                            let pv = params.deep_view();
                            assert(pv[1] == params@[1]@);
                            assert(pv[2] == params@[2]@);
                            assert(pv[3] == params@[3]@);
                            assert(replies.deep_view() =~= seq![res@]);
                        }
                        if crate::text::str_eq(res, "Login successful.") {
                            proof {
                                let pv = params.deep_view();
                                let pp = crate::store::player_of_record(store@[pv[1]])->Some_0;
                                reveal_strlit("Login successful.");
                                reveal_strlit("Password incorrect.");
                                assert("Login successful."@.len() == 17);
                                assert("Password incorrect."@.len() == 19);
                                if pp.password != pv[2] {
                                    assert(res@ == "Password incorrect."@);
                                    assert(false);
                                }
                            }
                            return (replies, Some(params[3].to_owned()));
                        }
                        (replies, None)
                    },
                    None => {
                        let mut line = String::new();
                        line.append("Game not found on channel ");
                        line.append(params[3]);
                        line.append(".");
                        proof {
                            assert(line@ =~= game_not_found_text(params.deep_view()[3]));
                        }
                        replies.push(line);
                        (replies, None)
                    },
                }
            } else {
                replies.push("You can only be logged into one account at once.".to_owned());
                replies.push("Use logout to log out.".to_owned());
                (replies, None)
            }
        },
        Err(_) => {
            let mut line = String::new();
            line.append("Account ");
            line.append(params[1]);
            line.append(" does not exist, or could not be loaded.");
            proof {
                assert(line@ =~= account_missing_text(params.deep_view()[1]));
            }
            replies.push(line);
            (replies, None)
        },
    }
}

/// The channel housekeeping a fresh campaign asks of the chat layer:
/// join the channel, set its topic to the campaign name, make it
/// invite-only, and invite the creator.
pub struct ChannelSetup {
    pub channel: String,
    pub topic: String,
}

/// Creates a campaign on a channel, with the rest of the parameters as
/// its name, and replaces whatever campaign the channel had.
pub fn do_create(world: &mut World, resp: &str, params: Vec<&str>) -> (r: (
    Vec<String>,
    Option<ChannelSetup>,
))
    requires
        old(world).wf(),
    ensures
        final(world).wf(),
        final(world)@.users == old(world)@.users,
        final(world)@.user_channels == old(world)@.user_channels,
        final(world)@.monsters == old(world)@.monsters,
        ({
            let pv = params.deep_view();
            if pv.len() >= 3 {
                let name = join_range(pv, 2, pv.len() as int);
                &&& final(world)@.games == old(world)@.games.insert(
                    pv[1],
                    GameView { name, dm_nick: resp@, users: Map::empty() },
                )
                &&& r.0.deep_view() =~= seq![campaign_created_text(name)]
                &&& (r.1 matches Some(setup) && setup.channel@ == pv[1] && setup.topic@ == name)
            } else {
                &&& final(world)@.games == old(world)@.games
                &&& r.0.deep_view() =~= seq![
                    "Incorrect format for game creation. Format is:"@,
                    "create channel campaign name"@,
                ]
                &&& r.1 is None
            }
        }),
{
    let mut replies: Vec<String> = Vec::new();
    if params.len() >= 3 {
        let name = join_from(&params, 2);
        world.add_game(name.as_str(), resp, params[1]);
        let mut line = String::new();
        line.append("Campaign created named ");
        line.append(name.as_str());
        line.append(".");
        proof {
            assert(line@ =~= campaign_created_text(name@));
        }
        replies.push(line);
        let setup = ChannelSetup { channel: params[1].to_owned(), topic: name };
        (replies, Some(setup))
    } else {
        replies.push("Incorrect format for game creation. Format is:".to_owned());
        replies.push("create channel campaign name".to_owned());
        (replies, None)
    }
}

/// Ends the caller's session: the account is persisted first and evicted
/// after, so a persistence fault can never lose state.
pub fn do_logout(world: &mut World, store: &mut RecordStore, resp: &str) -> (r: Vec<String>)
    requires
        old(world).wf(),
    ensures
        final(world).wf(),
        final(world)@.games == old(world)@.games,
        final(world)@.monsters == old(world)@.monsters,
        final(world)@.user_channels == old(world)@.user_channels,
        ({
            let w0 = old(world)@;
            if w0.users.contains_key(resp@) {
                &&& final(world)@.users == w0.users.remove(resp@)
                &&& final(store)@ == old(store)@.insert(
                    w0.users[resp@].username,
                    record_of(w0.users[resp@]),
                )
                &&& r.deep_view() =~= seq!["You've been logged out."@]
            } else {
                &&& final(world)@.users == w0.users
                &&& final(store)@ == old(store)@
                &&& r.deep_view() =~= seq!["You're not currently logged in."@]
            }
        }),
{
    let mut replies: Vec<String> = Vec::new();
    if world.is_user_logged_in(resp) {
        match world.remove_user(resp, store) {
            Ok(_) => {
                replies.push("You've been logged out.".to_owned());
            },
            Err(_) => {
                proof {
                    assert(false);
                }
            },
        }
    } else {
        replies.push("You're not currently logged in.".to_owned());
    }
    replies
}

/// Appends a feat, named by the rest of the parameters, to the caller's
/// logged-in account.
pub fn do_add_feat(world: &mut World, resp: &str, params: Vec<&str>) -> (r: Vec<String>)
    requires
        old(world).wf(),
    ensures
        final(world).wf(),
        final(world)@.games == old(world)@.games,
        final(world)@.monsters == old(world)@.monsters,
        final(world)@.user_channels == old(world)@.user_channels,
        ({
            let pv = params.deep_view();
            let w0 = old(world)@;
            if pv.len() > 1 {
                let name = join_range(pv, 1, pv.len() as int);
                if w0.users.contains_key(resp@) {
                    &&& final(world)@.users == w0.users.insert(
                        resp@,
                        PlayerView { feats: w0.users[resp@].feats.push(name), ..w0.users[resp@] },
                    )
                    &&& r.deep_view() =~= seq![added_feat_text(name)]
                } else {
                    &&& final(world)@.users == w0.users
                    &&& r.deep_view() =~= seq!["You must be logged in to add a feat."@]
                }
            } else {
                &&& final(world)@.users == w0.users
                &&& r.deep_view() =~= seq![
                    "Can't add feat without a name. Format is:"@,
                    "addfeat name of feat"@,
                ]
            }
        }),
{
    let mut replies: Vec<String> = Vec::new();
    if params.len() > 1 {
        let name = join_from(&params, 1);
        if world.add_feat_to_user(resp, name.as_str()) {
            let mut line = String::new();
            line.append("Added ");
            line.append(name.as_str());
            line.append(" feat.");
            proof {
                assert(line@ =~= added_feat_text(name@));
            }
            replies.push(line);
        } else {
            replies.push("You must be logged in to add a feat.".to_owned());
        }
    } else {
        replies.push("Can't add feat without a name. Format is:".to_owned());
        replies.push("addfeat name of feat".to_owned());
    }
    replies
}

/// Renders a channel's tracked-user list for the `.list` query; the chat
/// layer hands in what it knows of the channel, `None` when it tracks
/// nothing there.
pub fn format_user_list(users: Option<&Vec<String>>) -> (r: String)
    requires
        users matches Some(v) ==> v.deep_view().len() > 0,
    ensures
        match users {
            Some(v) => r@ == join_range(v.deep_view(), 0, v.deep_view().len() as int),
            None => r@ == "None."@,
        },
{
    match users {
        Some(v) => {
            let ghost ws = v.deep_view();
            let n = v.len();
            let mut res = String::new();
            res.append(v[0].as_str());
            let mut i: usize = 1;
            while i < n
                invariant
                    n == v.deep_view().len(),
                    ws == v.deep_view(),
                    0 < i <= n,
                    res@ == join_range(ws, 0, i as int),
                decreases n - i,
            {
                proof {
                    reveal_strlit(" ");
                }
                res.append(" ");
                res.append(v[i].as_str());
                proof {
                    assert(v.deep_view()[i as int] == v@[i as int]@);
                    assert(res@ =~= join_range(ws, 0, i + 1));
                }
                i = i + 1;
            }
            res
        },
        None => "None.".to_owned(),
    }
}

} // verus!
