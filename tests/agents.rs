use middle_earth_ai_program::agent::{is_cooldown_over, Agent};
use middle_earth_ai_program::alliance::{break_alliance, form_alliance};
use middle_earth_ai_program::error::GameError;
use middle_earth_ai_program::key::Key;
use middle_earth_ai_program::game::{end_game, initialize_game, Alliance, Game};
use middle_earth_ai_program::movement::{ignore_agent, is_valid_coordinate, move_agent};
use middle_earth_ai_program::registry::{kill_agent, register_agent, set_agent_cooldown};
use middle_earth_ai_program::terrain::TerrainType;
use middle_earth_ai_program::utils::random_burn_percentage;

const AUTH: Key = Key { w0: 7, w1: 0, w2: 0, w3: 0 };
const STRANGER: Key = Key { w0: 8, w1: 0, w2: 0, w3: 0 };
const NOW: i64 = 1_700_000_000;

fn key(n: u64) -> Key {
    Key { w0: n, w1: 0, w2: 0, w3: 0 }
}

fn token_account(amount: u64) -> Vec<u8> {
    let mut d = vec![0u8; 165];
    d[64..72].copy_from_slice(&amount.to_le_bytes());
    d[108] = 1;
    d
}

fn setup(n: u64) -> (Game, Vec<Agent>) {
    let mut game = Game::new();
    initialize_game(&mut game, AUTH, 1, 255, NOW - 100_000).unwrap();
    let mut agents = Vec::new();
    for k in 0..n {
        agents.push(register_agent(&mut game, AUTH, key(100 + k), k as u8, 0, 0, format!("a{}", k)).unwrap());
    }
    (game, agents)
}

#[test]
fn attack_cooldown_boundary() {
    let mut a = setup(1).1[0];
    a.last_attack = NOW;
    assert_eq!(a.validate_attack(NOW + 14400), Ok(()));
    assert_eq!(a.validate_attack(NOW + 14399), Err(GameError::BattleCooldown));
}

#[test]
fn alliance_and_ignore_cooldown_boundary() {
    let mut a = setup(1).1[0];
    a.last_alliance = NOW;
    a.last_ignore = NOW;
    assert_eq!(a.validate_alliance(NOW + 14400), Ok(()));
    assert_eq!(a.validate_alliance(NOW + 14399), Err(GameError::AllianceCooldown));
    assert_eq!(a.validate_ignore(NOW + 14400), Ok(()));
    assert_eq!(a.validate_ignore(NOW + 14399), Err(GameError::IgnoreCooldown));
    assert!(is_cooldown_over(i64::MAX, 1, i64::MAX) == false);
    assert!(is_cooldown_over(i64::MIN, 10, i64::MIN + 10));
}

#[test]
fn movement_boundary_and_terrain() {
    let (game, agents) = setup(1);
    let mut a = agents[0];
    let ev = move_agent(&game, AUTH, &mut a, 10, -20, TerrainType::River, NOW).unwrap();
    assert_eq!((ev.old_x, ev.old_y, ev.new_x, ev.new_y), (0, 0, 10, -20));
    assert_eq!((a.x, a.y, a.last_move), (10, -20, NOW));
    assert_eq!(a.next_move_time, NOW + 7200);
    let before = a;
    assert_eq!(move_agent(&game, AUTH, &mut a, 0, 0, TerrainType::Plain, NOW + 7199), Err(GameError::MovementCooldown));
    assert_eq!(a, before);
    move_agent(&game, AUTH, &mut a, 0, 0, TerrainType::Mountain, NOW + 7200).unwrap();
    assert_eq!(a.next_move_time, NOW + 7200 + 10800);
    move_agent(&game, AUTH, &mut a, 1, 1, TerrainType::Plain, NOW + 7200 + 10800).unwrap();
    assert_eq!(a.next_move_time, NOW + 7200 + 10800 + 3600);
}

#[test]
fn movement_errors() {
    let (game, agents) = setup(1);
    let mut a = agents[0];
    assert_eq!(move_agent(&game, STRANGER, &mut a, 0, 0, TerrainType::Plain, NOW), Err(GameError::Unauthorized));
    assert_eq!(move_agent(&game, AUTH, &mut a, 500, 1, TerrainType::Plain, NOW), Err(GameError::OutOfBounds));
    assert_eq!(move_agent(&game, AUTH, &mut a, 0, 0, TerrainType::Plain, i64::MAX), Err(GameError::Overflow));
    a.is_alive = false;
    assert_eq!(move_agent(&game, AUTH, &mut a, 0, 0, TerrainType::Plain, NOW), Err(GameError::AgentNotAlive));
}

#[test]
fn map_bounds() {
    assert!(is_valid_coordinate(500, 0, 1000));
    assert!(is_valid_coordinate(0, -500, 1000));
    assert!(!is_valid_coordinate(500, 1, 1000));
    assert!(is_valid_coordinate(300, 400, 1000));
    assert!(!is_valid_coordinate(i32::MIN, i32::MIN, u32::MAX));
    assert!(is_valid_coordinate(0, 0, 0));
}

#[test]
fn ignore_records_target() {
    let (game, agents) = setup(1);
    let mut a = agents[0];
    let rec = ignore_agent(&game, AUTH, &mut a, 3, NOW).unwrap();
    assert_eq!((rec.agent_id, rec.timestamp), (3, NOW));
    assert_eq!(a.last_ignore, NOW);
    assert_eq!(ignore_agent(&game, AUTH, &mut a, 3, NOW + 100), Err(GameError::IgnoreCooldown));
    assert_eq!(ignore_agent(&game, STRANGER, &mut a, 3, NOW + 20000), Err(GameError::Unauthorized));
}

#[test]
fn alliance_lifecycle() {
    let (mut game, agents) = setup(2);
    let (mut a, mut b) = (agents[0], agents[1]);
    form_alliance(&mut game, AUTH, &mut a, &mut b, NOW).unwrap();
    assert_eq!(a.alliance_with, Some(b.key));
    assert_eq!(b.alliance_with, Some(a.key));
    assert_eq!(game.alliances, vec![Alliance { agent1: a.key, agent2: b.key, formed_at: NOW, is_active: true }]);
    assert_eq!(form_alliance(&mut game, AUTH, &mut b, &mut a, NOW + 20000), Err(GameError::AllianceAlreadyExists));
    break_alliance(&mut game, AUTH, &mut b, &mut a).unwrap();
    assert_eq!(a.alliance_with, None);
    assert_eq!(b.alliance_with, None);
    assert!(!game.alliances[0].is_active);
    assert_eq!(break_alliance(&mut game, AUTH, &mut a, &mut b), Err(GameError::NoAllianceToBreak));
    // the initiator waits four hours before allying again
    assert_eq!(form_alliance(&mut game, AUTH, &mut a, &mut b, NOW + 14399), Err(GameError::AllianceCooldown));
    form_alliance(&mut game, AUTH, &mut a, &mut b, NOW + 14400).unwrap();
    assert_eq!(game.alliances.len(), 1);
    assert_eq!(game.alliances[0].formed_at, NOW + 14400);
    assert!(game.alliances[0].is_active);
}

#[test]
fn alliance_errors() {
    let (mut game, agents) = setup(3);
    let (mut a, mut b, mut c) = (agents[0], agents[1], agents[2]);
    let mut a2 = a;
    assert_eq!(form_alliance(&mut game, AUTH, &mut a, &mut a2, NOW), Err(GameError::InvalidAlliancePartner));
    assert_eq!(form_alliance(&mut game, STRANGER, &mut a, &mut b, NOW), Err(GameError::Unauthorized));
    c.is_alive = false;
    assert_eq!(form_alliance(&mut game, AUTH, &mut a, &mut c, NOW), Err(GameError::AgentNotAlive));
    form_alliance(&mut game, AUTH, &mut a, &mut b, NOW).unwrap();
    c.is_alive = true;
    assert_eq!(form_alliance(&mut game, AUTH, &mut c, &mut b, NOW), Err(GameError::AllianceAlreadyExists));
    assert_eq!(game.alliances.len(), 1);
}

#[test]
fn alliance_records_are_bounded() {
    let mut game = Game::new();
    initialize_game(&mut game, AUTH, 1, 255, 0).unwrap();
    for k in 0..5u64 {
        game.alliances.push(Alliance { agent1: key(900 + k), agent2: key(950 + k), formed_at: 0, is_active: false });
    }
    let mut a = register_agent(&mut game, AUTH, key(1), 1, 0, 0, "x".to_string()).unwrap();
    let mut b = register_agent(&mut game, AUTH, key(2), 2, 0, 0, "y".to_string()).unwrap();
    assert_eq!(form_alliance(&mut game, AUTH, &mut a, &mut b, NOW), Err(GameError::MaxAllianceLimitReached));
    assert_eq!(a.alliance_with, None);
}

#[test]
fn registration() {
    let mut game = Game::new();
    assert_eq!(
        register_agent(&mut game, key(0), key(1), 1, 0, 0, "x".to_string()).unwrap_err(),
        GameError::GameNotActive
    );
    initialize_game(&mut game, AUTH, 3, 255, 42).unwrap();
    assert_eq!(initialize_game(&mut game, AUTH, 3, 255, 42), Err(GameError::ReentrancyGuard));
    assert_eq!(game.game_id, 3);
    assert_eq!(
        register_agent(&mut game, STRANGER, key(1), 1, 0, 0, "x".to_string()).unwrap_err(),
        GameError::Unauthorized
    );
    let a = register_agent(&mut game, AUTH, key(1), 9, 5, -5, "Gandalf".to_string()).unwrap();
    assert!(a.is_alive);
    assert_eq!((a.key, a.id, a.x, a.y, a.authority, a.game), (key(1), 9, 5, -5, AUTH, 3));
    assert_eq!(game.agents[0].name, "Gandalf");
    assert_eq!(
        register_agent(&mut game, AUTH, key(1), 9, 0, 0, "again".to_string()).unwrap_err(),
        GameError::AgentAlreadyExists
    );
    assert_eq!(
        register_agent(&mut game, AUTH, key(2), 2, 0, 0, "x".repeat(33)).unwrap_err(),
        GameError::NameTooLong
    );
    // 17 characters of two bytes each
    assert_eq!(
        register_agent(&mut game, AUTH, key(2), 2, 0, 0, "\u{e9}".repeat(17)).unwrap_err(),
        GameError::NameTooLong
    );
    register_agent(&mut game, AUTH, key(2), 2, 0, 0, "x".repeat(32)).unwrap();
    register_agent(&mut game, AUTH, key(3), 3, 0, 0, "c".to_string()).unwrap();
    register_agent(&mut game, AUTH, key(4), 4, 0, 0, "d".to_string()).unwrap();
    assert_eq!(
        register_agent(&mut game, AUTH, key(5), 5, 0, 0, "e".to_string()).unwrap_err(),
        GameError::MaxAgentLimitReached
    );
    assert_eq!(game.agents.len(), 4);
}

#[test]
fn kill_and_end() {
    let (mut game, agents) = setup(1);
    let mut a = agents[0];
    assert_eq!(kill_agent(&game, STRANGER, &mut a, &token_account(5)), Err(GameError::Unauthorized));
    assert_eq!(kill_agent(&game, AUTH, &mut a, &[0u8; 3]), Err(GameError::NotEnoughTokens));
    assert!(a.is_alive);
    assert_eq!(kill_agent(&game, AUTH, &mut a, &token_account(5)), Ok(5));
    assert!(!a.is_alive);
    assert_eq!(end_game(&mut game, STRANGER), Err(GameError::Unauthorized));
    end_game(&mut game, AUTH).unwrap();
    assert!(!game.is_active);
    assert_eq!(end_game(&mut game, AUTH), Err(GameError::GameNotActive));
}

#[test]
fn forced_cooldown() {
    let (game, agents) = setup(1);
    let mut a = agents[0];
    set_agent_cooldown(&game, AUTH, &mut a, NOW).unwrap();
    assert_eq!(a.last_attack, NOW);
    assert_eq!(a.next_move_time, NOW + 3600);
    assert_eq!(a.battle_start_time, Some(NOW));
    assert_eq!(set_agent_cooldown(&game, AUTH, &mut a, i64::MAX), Err(GameError::Overflow));
    assert_eq!(set_agent_cooldown(&game, STRANGER, &mut a, 0), Err(GameError::Unauthorized));
}

#[test]
fn burn_percentage_is_the_minimum() {
    assert_eq!(random_burn_percentage(31, 50), 31);
    assert_eq!(GameError::NameTooLong.message(), "Agent name is too long.");
}

#[test]
fn inactive_game_refuses_actions() {
    let (mut game, agents) = setup(2);
    let (mut a, mut b) = (agents[0], agents[1]);
    game.is_active = false;
    assert_eq!(move_agent(&game, AUTH, &mut a, 0, 0, TerrainType::Plain, NOW), Err(GameError::GameNotActive));
    assert_eq!(ignore_agent(&game, AUTH, &mut a, 1, NOW), Err(GameError::GameNotActive));
    assert_eq!(form_alliance(&mut game, AUTH, &mut a, &mut b, NOW), Err(GameError::GameNotActive));
    assert_eq!(break_alliance(&mut game, AUTH, &mut a, &mut b), Err(GameError::GameNotActive));
    assert_eq!(kill_agent(&game, AUTH, &mut a, &token_account(1)), Err(GameError::GameNotActive));
    assert!(a.is_alive);
}
