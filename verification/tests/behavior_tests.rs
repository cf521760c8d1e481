use dnd::commands::{do_add_feat, do_create, do_login, do_logout, do_register, format_user_list};
use dnd::func::{AddMonster, LookUpMonster};
use dnd::game::Game;
use dnd::monster::Monster;
use dnd::player::Player;
use dnd::stats::MonsterStats;
use dnd::store::RecordStore;
use dnd::text::{join_from, split_words, str_to_u8};
use dnd::world::World;
use dnd::BotError;

#[test]
fn str_to_u8_reads_small_numbers_leniently() {
    assert_eq!(str_to_u8("12"), 12);
    assert_eq!(str_to_u8("255"), 255);
    assert_eq!(str_to_u8("012"), 12);
    assert_eq!(str_to_u8("0"), 0);
    assert_eq!(str_to_u8("-12"), 0);
    assert_eq!(str_to_u8("a"), 0);
    assert_eq!(str_to_u8("256"), 0);
    assert_eq!(str_to_u8(""), 0);
    assert_eq!(str_to_u8("99999999999999999999999999"), 0);
}

#[test]
fn split_words_splits_at_every_space() {
    assert_eq!(split_words("login alice secret #camp"), vec!["login", "alice", "secret", "#camp"]);
    assert_eq!(split_words("a  b"), vec!["a", "", "b"]);
    assert_eq!(split_words(""), vec![""]);
    assert_eq!(split_words("one"), vec!["one"]);
}

#[test]
fn join_from_joins_with_spaces() {
    assert_eq!(join_from(&vec!["create", "#ch", "Dungeons", "and", "Tests"], 2), "Dungeons and Tests");
    assert_eq!(join_from(&vec!["one"], 0), "one");
}

#[test]
fn second_monster_gets_next_index() {
    let mut w = World::new();
    w.add_game("Test", "test", "#test");
    let args = vec!["addmonster", "#test", "Test", "20", "12", "12", "12", "12", "12", "12"];
    let first = AddMonster::new("test", args.clone(), &w).unwrap();
    assert_eq!(first.do_func(&mut w).unwrap(), "Monster (Test) has been created as @0.");
    let second = AddMonster::new("test", args, &w).unwrap();
    assert_eq!(second.do_func(&mut w).unwrap(), "Monster (Test) has been created as @1.");
}

#[test]
fn monster_indices_are_independent_across_channels() {
    let mut w = World::new();
    assert_eq!(w.add_monster(Monster::create("a", 20, 12, 12, 12, 12, 12, 12), "#one"), 0);
    assert_eq!(w.add_monster(Monster::create("b", 20, 12, 12, 12, 12, 12, 12), "#two"), 0);
    assert_eq!(w.add_monster(Monster::create("c", 20, 12, 12, 12, 12, 12, 12), "#one"), 1);
}

#[test]
fn rejected_add_monster_leaves_world_unchanged() {
    let mut w = World::new();
    w.add_game("Test", "test", "#test");
    let args = vec!["addmonster", "#test", "Test", "20", "-12", "a", "12", "12", "12", "12"];
    assert!(AddMonster::new("test", args, &w).is_err());
    assert!(w.get_entity("@0", Some("#test")).is_err());
}

#[test]
fn cleared_overlay_reverts_to_base_stats() {
    let mut w = World::new();
    w.add_game("Test", "test", "#test");
    let mut m = Monster::create("Test", 14, 12, 10, 12, 12, 12, 12);
    m.set_temp_stats(MonsterStats::new(20, 12, 12, 12, 12, 12, 12));
    m.clear_temp_stats();
    w.add_monster(m, "#test");
    let cmd = LookUpMonster::new("test", vec!["mlookup", "#test", "@0", "health"], &w).unwrap();
    assert_eq!(cmd.do_func(&w).unwrap(), "Test (@0): 14 health");
    let whole = LookUpMonster::new("test", vec!["mlookup", "#test", "@0"], &w).unwrap();
    let exp = "Test (@0): Stats { health: 14, strength: 12, dexterity: 10, constitution: 12, wisdom: 12, intellect: 12, charisma: 12 }";
    assert_eq!(whole.do_func(&w).unwrap(), exp);
}

#[test]
fn add_monster_without_game_is_refused() {
    let w = World::new();
    let args = vec!["addmonster", "#test", "Test", "20", "12", "12", "12", "12", "12", "12"];
    match AddMonster::new("test", args, &w) {
        Err(BotError::Propagated(resp, msg)) => {
            assert_eq!(resp, "test");
            assert_eq!(msg, "There is no game in #test.");
        },
        _ => panic!("construction should fail"),
    }
}

#[test]
fn add_monster_by_non_game_master_is_refused() {
    let mut w = World::new();
    w.add_game("Test", "dungeonmaster", "#test");
    let args = vec!["addmonster", "#test", "Test", "20", "12", "12", "12", "12", "12", "12"];
    match AddMonster::new("test", args, &w) {
        Err(BotError::Propagated(resp, msg)) => {
            assert_eq!(resp, "test");
            assert_eq!(msg, "You must be the game master of #test to do that.");
        },
        _ => panic!("construction should fail"),
    }
}

#[test]
fn add_monster_with_wrong_arity_names_the_usage() {
    let mut w = World::new();
    w.add_game("Test", "test", "#test");
    let args = vec!["addmonster", "#test", "Test", "20"];
    match AddMonster::new("test", args, &w) {
        Err(BotError::Propagated(_, msg)) => {
            let mut exp = String::from("Incorrect format for addmonster. Format is:\r\n");
            exp.push_str("addmonster chan name health str dex con wis int cha");
            assert_eq!(msg, exp);
        },
        _ => panic!("construction should fail"),
    }
}

#[test]
fn look_up_with_wrong_arity_names_the_usage() {
    let mut w = World::new();
    w.add_game("Test", "test", "#test");
    match LookUpMonster::new("test", vec!["mlookup", "#test"], &w) {
        Err(BotError::Propagated(_, msg)) => {
            let mut exp = String::from("Incorrect format for mlookup. Format is:\r\n");
            exp.push_str("mlookup channel target [stat]");
            assert_eq!(msg, exp);
        },
        _ => panic!("construction should fail"),
    }
}

#[test]
fn look_up_permission_failure_preempts_arity() {
    let mut w = World::new();
    w.add_game("Test", "dungeonmaster", "#test");
    match LookUpMonster::new("test", vec!["mlookup", "#test"], &w) {
        Err(BotError::Propagated(resp, msg)) => {
            assert_eq!(resp, "test");
            assert_eq!(msg, "You must be the game master of #test to do that.");
        },
        _ => panic!("construction should fail with a permission error"),
    }
}

#[test]
fn look_up_without_game_is_refused() {
    let w = World::new();
    match LookUpMonster::new("test", vec!["mlookup", "#test", "@0"], &w) {
        Err(BotError::Propagated(resp, msg)) => {
            assert_eq!(resp, "test");
            assert_eq!(msg, "There is no game in #test.");
        },
        _ => panic!("construction should fail with a permission error"),
    }
}

#[test]
fn look_up_of_plain_token_is_not_a_monster() {
    let mut w = World::new();
    w.add_game("Test", "test", "#test");
    match LookUpMonster::new("test", vec!["mlookup", "#test", "zombie"], &w) {
        Err(BotError::Propagated(_, msg)) => {
            assert_eq!(msg, "zombie is not a valid monster.");
        },
        _ => panic!("construction should fail"),
    }
}

#[test]
fn get_entity_rejects_non_integer_reference() {
    let w = World::new();
    match w.get_entity("@zero", Some("#test")) {
        Err(BotError::InvalidInput(msg)) => assert_eq!(msg, "Non-integer identifier."),
        _ => panic!("resolution should fail as invalid input"),
    }
}

#[test]
fn get_entity_needs_a_channel_for_monsters() {
    let w = World::new();
    match w.get_entity("@0", None) {
        Err(BotError::InvalidInput(msg)) => assert_eq!(msg, "Monsters require a channel."),
        _ => panic!("resolution should fail as invalid input"),
    }
}

#[test]
fn get_entity_out_of_range_is_not_found() {
    let mut w = World::new();
    w.add_monster(Monster::create("Test", 20, 12, 12, 12, 12, 12, 12), "#test");
    match w.get_entity("@1", Some("#test")) {
        Err(BotError::NotFound(msg)) => assert_eq!(msg, "No such monster."),
        _ => panic!("resolution should fail as not found"),
    }
    match w.get_entity("ghost", Some("#test")) {
        Err(BotError::NotFound(msg)) => assert_eq!(msg, "User not found."),
        _ => panic!("resolution should fail as not found"),
    }
}

#[test]
fn get_entity_rejects_oversized_index() {
    let mut w = World::new();
    w.add_monster(Monster::create("Test", 20, 12, 12, 12, 12, 12, 12), "#test");
    match w.get_entity("@99999999999999999999999999", Some("#test")) {
        Err(BotError::InvalidInput(msg)) => assert_eq!(msg, "Non-integer identifier."),
        _ => panic!("resolution should fail as invalid input"),
    }
}

#[test]
fn add_game_replaces_the_channel_campaign() {
    let mut w = World::new();
    w.add_game("First", "dm", "#camp");
    w.add_game("Second", "dm2", "#camp");
    let g = w.get_game("#camp").unwrap();
    assert_eq!(g.name, "Second");
    assert_eq!(g.dm_nick, "dm2");
}

#[test]
fn add_user_replaces_the_prior_session() {
    let mut w = World::new();
    let p = Player::create("alice", "one", 10, 11, 12, 13, 14, 15).unwrap();
    let q = Player::create("alice", "two", 10, 11, 12, 13, 14, 15).unwrap();
    w.add_user("alice", "#a", p);
    w.add_user("alice", "#b", q);
    assert_eq!(w.get_user("alice").unwrap().password, "two");
    let mut store = RecordStore::new();
    assert_eq!(w.remove_user("alice", &mut store).unwrap(), "#b");
}

#[test]
fn load_of_missing_record_is_not_found() {
    let store = RecordStore::new();
    match Player::load("nobody", &store) {
        Err(BotError::NotFound(msg)) => assert_eq!(msg, "Record not found."),
        _ => panic!("load should fail as not found"),
    }
}

#[test]
fn load_of_corrupt_record_is_a_decode_error() {
    let mut store = RecordStore::new();
    store.put_record(String::from("broken"), vec![String::from("broken")]);
    match Player::load("broken", &store) {
        Err(BotError::InvalidInput(msg)) => assert_eq!(msg, "Decoder error."),
        _ => panic!("load should fail as a decode error"),
    }
    store.put_record(
        String::from("bad"),
        vec![
            String::from("bad"),
            String::from("pw"),
            String::from("12"),
            String::from("12"),
            String::from("twelve"),
            String::from("12"),
            String::from("12"),
            String::from("12"),
        ],
    );
    assert!(Player::load("bad", &store).is_err());
}

#[test]
fn register_creates_and_persists_the_account() {
    let mut store = RecordStore::new();
    let params = vec!["register", "alice", "secret", "10", "11", "12", "13", "14", "15"];
    let replies = do_register(&mut store, "alice", params);
    assert_eq!(replies, vec!["Your account (alice) has been created.".to_string()]);
    let p = Player::load("alice", &store).unwrap();
    assert_eq!(p.username, "alice");
    assert_eq!(p.password, "secret");
    assert_eq!(p.stats.strength, 10);
    assert_eq!(p.stats.charisma, 15);
    assert!(p.feats.is_empty());
}

#[test]
fn register_rejects_bad_stats_and_bad_arity() {
    let mut store = RecordStore::new();
    let bad_stats = vec!["register", "alice", "secret", "10", "0", "12", "13", "14", "15"];
    let replies = do_register(&mut store, "alice", bad_stats);
    assert_eq!(
        replies,
        vec![
            "Stats must be non-zero positive integers. Format is: ".to_string(),
            "register username password str dex con wis int cha".to_string(),
        ]
    );
    assert!(Player::load("alice", &store).is_err());
    let bad_arity = vec!["register", "alice"];
    let replies = do_register(&mut store, "alice", bad_arity);
    assert_eq!(
        replies,
        vec![
            "Incorrect format for registration. Format is:".to_string(),
            "register username password str dex con wis int cha".to_string(),
        ]
    );
}

#[test]
fn login_logout_round_trip() {
    let mut w = World::new();
    let mut store = RecordStore::new();
    do_register(&mut store, "alice", vec![
        "register", "alice", "secret", "10", "11", "12", "13", "14", "15",
    ]);
    let (replies, setup) = do_create(&mut w, "dm", vec!["create", "#camp", "Lost", "Mines"]);
    assert_eq!(replies, vec!["Campaign created named Lost Mines.".to_string()]);
    let setup = setup.unwrap();
    assert_eq!(setup.channel, "#camp");
    assert_eq!(setup.topic, "Lost Mines");
    let (replies, invite) = do_login(&mut w, &store, "alice", vec![
        "login", "alice", "secret", "#camp",
    ]);
    assert_eq!(replies, vec!["Login successful.".to_string()]);
    assert_eq!(invite, Some("#camp".to_string()));
    assert!(w.is_user_logged_in("alice"));
    let (replies, invite) = do_login(&mut w, &store, "alice", vec![
        "login", "alice", "secret", "#camp",
    ]);
    assert_eq!(
        replies,
        vec![
            "You can only be logged into one account at once.".to_string(),
            "Use logout to log out.".to_string(),
        ]
    );
    assert!(invite.is_none());
    let replies = do_logout(&mut w, &mut store, "alice");
    assert_eq!(replies, vec!["You've been logged out.".to_string()]);
    assert!(!w.is_user_logged_in("alice"));
    let replies = do_logout(&mut w, &mut store, "alice");
    assert_eq!(replies, vec!["You're not currently logged in.".to_string()]);
}

#[test]
fn login_failures_are_reported() {
    let mut w = World::new();
    let mut store = RecordStore::new();
    let (replies, invite) = do_login(&mut w, &store, "alice", vec![
        "login", "alice", "secret", "#camp",
    ]);
    assert_eq!(
        replies,
        vec!["Account alice does not exist, or could not be loaded.".to_string()]
    );
    assert!(invite.is_none());
    do_register(&mut store, "alice", vec![
        "register", "alice", "secret", "10", "11", "12", "13", "14", "15",
    ]);
    let (replies, invite) = do_login(&mut w, &store, "alice", vec![
        "login", "alice", "secret", "#camp",
    ]);
    assert_eq!(replies, vec!["Game not found on channel #camp.".to_string()]);
    assert!(invite.is_none());
    let mut w2 = World::new();
    do_create(&mut w2, "dm", vec!["create", "#camp", "Lost", "Mines"]);
    let (replies, invite) = do_login(&mut w2, &store, "alice", vec![
        "login", "alice", "wrong", "#camp",
    ]);
    assert_eq!(replies, vec!["Password incorrect.".to_string()]);
    assert!(invite.is_none());
    let (replies, _) = do_login(&mut w2, &store, "alice", vec!["login", "alice"]);
    assert_eq!(
        replies,
        vec![
            "Incorrect format for login: Format is:".to_string(),
            "login username password channel".to_string(),
        ]
    );
}

#[test]
fn logout_persists_the_latest_state() {
    let mut w = World::new();
    let mut store = RecordStore::new();
    let p = Player::create("alice", "secret", 10, 11, 12, 13, 14, 15).unwrap();
    w.add_user("alice", "#camp", p.clone());
    do_add_feat(&mut w, "alice", vec!["addfeat", "Great", "Cleave"]);
    do_logout(&mut w, &mut store, "alice");
    let saved = Player::load("alice", &store).unwrap();
    assert_eq!(saved.feats, vec!["Great Cleave".to_string()]);
}

#[test]
fn add_feat_appends_to_the_account() {
    let mut w = World::new();
    let p = Player::create("alice", "secret", 10, 11, 12, 13, 14, 15).unwrap();
    w.add_user("alice", "#camp", p);
    let replies = do_add_feat(&mut w, "alice", vec!["addfeat", "Great", "Cleave"]);
    assert_eq!(replies, vec!["Added Great Cleave feat.".to_string()]);
    assert_eq!(w.get_user("alice").unwrap().feats, vec!["Great Cleave".to_string()]);
    let replies = do_add_feat(&mut w, "bob", vec!["addfeat", "Dodge"]);
    assert_eq!(replies, vec!["You must be logged in to add a feat.".to_string()]);
    let replies = do_add_feat(&mut w, "alice", vec!["addfeat"]);
    assert_eq!(
        replies,
        vec![
            "Can't add feat without a name. Format is:".to_string(),
            "addfeat name of feat".to_string(),
        ]
    );
}

#[test]
fn create_rejects_short_invocations() {
    let mut w = World::new();
    let (replies, setup) = do_create(&mut w, "dm", vec!["create", "#camp"]);
    assert_eq!(
        replies,
        vec![
            "Incorrect format for game creation. Format is:".to_string(),
            "create channel campaign name".to_string(),
        ]
    );
    assert!(setup.is_none());
    assert!(!w.game_exists("#camp"));
}

#[test]
fn game_login_checks_the_password() {
    let mut g = Game::new("Lost Mines", "dm");
    let p = Player::create("alice", "secret", 10, 11, 12, 13, 14, 15).unwrap();
    assert_eq!(g.login(p.clone(), "alice", "secret").unwrap(), "Login successful.");
    assert_eq!(g.login(p, "alice", "wrong").unwrap(), "Password incorrect.");
    assert!(g.is_dm("dm"));
    assert!(!g.is_dm("alice"));
}

#[test]
fn user_list_formatting() {
    let users = vec!["alice".to_string(), "bob".to_string()];
    assert_eq!(format_user_list(Some(&users)), "alice bob");
    assert_eq!(format_user_list(None), "None.");
}

#[test]
fn player_entity_reports_its_stats() {
    let mut w = World::new();
    let p = Player::create("alice", "secret", 10, 11, 12, 13, 14, 15).unwrap();
    w.add_user("alice", "#camp", p);
    let e = w.get_entity("alice", None).unwrap();
    assert!(!e.has_temp_stats());
    assert_eq!(e.get_stat("wisdom"), Some(13));
    assert_eq!(e.get_stat("health"), None);
    let exp = "Stats { strength: 10, dexterity: 11, constitution: 12, wisdom: 13, intellect: 14, charisma: 15 }";
    assert_eq!(e.stats_text(), exp);
}
