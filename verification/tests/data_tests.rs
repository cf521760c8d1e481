use dnd::monster::Monster;
use dnd::player::Player;
use dnd::stats::Stats;
use dnd::store::RecordStore;
use dnd::world::World;

#[test]
fn create_player_test() {
    let p = Player::create("test", "test", 12, 12, 12, 12, 12, 12).unwrap();
    let m = Player {
        username: String::from("test"),
        password: String::from("test"),
        stats: Stats::new(12, 12, 12, 12, 12, 12).unwrap(),
        feats: Vec::new(),
    };
    assert!(p == m);
}

#[test]
fn save_load_player_test() {
    let mut store = RecordStore::new();
    let p = Player::create("test", "test", 12, 12, 12, 12, 12, 12).unwrap();
    p.save(&mut store);
    let l = Player::load("test", &store).unwrap();
    assert!(l == p);
}

#[test]
fn world_user() {
    let mut w = World::new();
    let mut store = RecordStore::new();
    let p = Player::create("test", "test", 20, 30, 12, 12, 12, 12).unwrap();
    assert!(!w.is_user_logged_in("test"));
    w.add_user("test", "#test", p.clone());
    assert!(*w.get_user("test").unwrap() == p);
    assert!(w.is_user_logged_in("test"));
    assert_eq!(w.remove_user("test", &mut store).unwrap(), "#test");
    assert!(!w.is_user_logged_in("test"));
    assert!(w.get_user("test").is_err());
}

#[test]
fn game_exists() {
    let mut w = World::new();
    assert!(!w.game_exists("#test"));
    w.add_game("Dungeons and Tests", "test", "#test");
    assert!(w.game_exists("#test"));
}

#[test]
fn get_game() {
    let mut w = World::new();
    w.add_game("Dungeons and Tests", "test", "#test");
    assert!(w.get_game("#test").is_ok());
    assert!(w.get_game("#test2").is_err());
}

#[test]
fn add_monster() {
    let mut w = World::new();
    assert_eq!(w.add_monster(Monster::create("test", 20, 30, 12, 12, 12, 12, 12), "#test"), 0);
    assert_eq!(w.add_monster(Monster::create("test2", 20, 30, 12, 12, 12, 12, 12), "#test"), 1);
}

#[test]
fn get_entity() {
    let mut w = World::new();
    let p = Player::create("test", "test", 20, 30, 12, 12, 12, 12).unwrap();
    let m = Monster::create("TestZombie", 20, 30, 12, 12, 12, 12, 12);
    w.add_user("test", "#test", p.clone());
    w.add_monster(m.clone(), "#test");
    assert_eq!(w.get_entity("test", None).unwrap().identifier(), p.identifier());
    assert_eq!(w.get_entity("@0", Some("#test")).unwrap().identifier(), m.identifier());
    assert_eq!(w.get_entity("test", Some("#test")).unwrap().identifier(), p.identifier());
}

#[test]
fn save_all() {
    let mut w = World::new();
    let mut store = RecordStore::new();
    let p = Player::create("test2", "test", 20, 30, 12, 12, 12, 12).unwrap();
    let q = Player::create("test3", "test", 20, 30, 12, 12, 12, 12).unwrap();
    w.add_user("test2", "#test", p.clone());
    w.add_user("test3", "#test", q.clone());
    w.save_all(&mut store);
    let l = Player::load("test2", &store).unwrap();
    let m = Player::load("test3", &store).unwrap();
    assert!(l == p);
    assert!(m == q);
}
