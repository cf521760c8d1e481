use dnd::func::{AddMonster, LookUpMonster};
use dnd::monster::Monster;
use dnd::stats::MonsterStats;
use dnd::world::World;
use dnd::BotError;

fn world_with_game() -> World {
    let mut w = World::new();
    w.add_game("Test", "test", "#test");
    w
}

#[test]
fn add_success() {
    let mut w = world_with_game();
    let args = vec!["addmonster", "#test", "Test", "20", "12", "12", "12", "12", "12", "12"];
    let cmd = match AddMonster::new("test", args, &w) {
        Ok(cmd) => cmd,
        Err(_) => panic!("construction should succeed"),
    };
    let reply = cmd.do_func(&mut w).unwrap();
    assert_eq!(reply, "Monster (Test) has been created as @0.");
}

#[test]
fn add_failed_non_integers() {
    let w = world_with_game();
    let args = vec!["addmonster", "#test", "Test", "20", "-12", "a", "12", "12", "12", "12"];
    match AddMonster::new("test", args, &w) {
        Err(BotError::Propagated(resp, msg)) => {
            assert_eq!(resp, "test");
            let mut exp = String::from("Stats must be non-zero positive integers. Format is:\r\n");
            exp.push_str("addmonster chan name health str dex con wis int cha");
            assert_eq!(msg, exp);
        },
        _ => panic!("construction should fail with a propagated error"),
    }
}

#[test]
fn look_up_success() {
    let mut w = world_with_game();
    w.add_monster(Monster::create("Test", 20, 12, 12, 12, 12, 12, 12), "#test");
    let cmd = LookUpMonster::new("test", vec!["mlookup", "#test", "@0"], &w).unwrap();
    let reply = cmd.do_func(&w).unwrap();
    let exp = "Test (@0): Stats { health: 20, strength: 12, dexterity: 12, constitution: 12, wisdom: 12, intellect: 12, charisma: 12 }";
    assert_eq!(reply, exp);
}

#[test]
fn look_up_failed_no_monster() {
    let mut w = world_with_game();
    w.add_monster(Monster::create("Test", 20, 12, 12, 12, 12, 12, 12), "#test");
    let cmd = LookUpMonster::new("test", vec!["mlookup", "#test", "@1"], &w).unwrap();
    match cmd.do_func(&w) {
        Err(BotError::Propagated(resp, msg)) => {
            assert_eq!(resp, "test");
            assert_eq!(msg, "@1 is not a valid monster.");
        },
        _ => panic!("lookup should fail with a propagated error"),
    }
}

#[test]
fn look_up_success_by_stat() {
    let mut w = world_with_game();
    w.add_monster(Monster::create("Test", 20, 12, 12, 12, 12, 12, 12), "#test");
    let cmd = LookUpMonster::new("test", vec!["mlookup", "#test", "@0", "health"], &w).unwrap();
    let reply = cmd.do_func(&w).unwrap();
    assert_eq!(reply, "Test (@0): 20 health");
}

#[test]
fn look_up_failed_invalid_stat() {
    let mut w = world_with_game();
    w.add_monster(Monster::create("Test", 20, 12, 12, 12, 12, 12, 12), "#test");
    let cmd = LookUpMonster::new("test", vec!["mlookup", "#test", "@0", "test"], &w).unwrap();
    match cmd.do_func(&w) {
        Err(BotError::Propagated(resp, msg)) => {
            assert_eq!(resp, "test");
            assert_eq!(msg, "test is not a valid stat.");
        },
        _ => panic!("lookup should fail with a propagated error"),
    }
}

#[test]
fn look_up_success_temporary() {
    let mut w = world_with_game();
    let mut m = Monster::create("Test", 14, 12, 10, 12, 12, 12, 12);
    m.set_temp_stats(MonsterStats::new(20, 12, 12, 12, 12, 12, 12));
    w.add_monster(m, "#test");
    let cmd = LookUpMonster::new("test", vec!["mlookup", "#test", "@0"], &w).unwrap();
    let reply = cmd.do_func(&w).unwrap();
    let exp = "Test (@0): Temp. Stats { health: 20, strength: 12, dexterity: 12, constitution: 12, wisdom: 12, intellect: 12, charisma: 12 }";
    assert_eq!(reply, exp);
}

#[test]
fn look_up_success_temporary_stat() {
    let mut w = world_with_game();
    let mut m = Monster::create("Test", 14, 12, 10, 12, 12, 12, 12);
    m.set_temp_stats(MonsterStats::new(20, 12, 12, 12, 12, 12, 12));
    w.add_monster(m, "#test");
    let cmd = LookUpMonster::new("test", vec!["mlookup", "#test", "@0", "health"], &w).unwrap();
    let reply = cmd.do_func(&w).unwrap();
    assert_eq!(reply, "Test (@0): Temp. 20 health");
}
