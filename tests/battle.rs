use middle_earth_ai_program::agent::Agent;
use middle_earth_ai_program::battle::{
    loss_amount, reset_battle_times, resolve_battle_agent_vs_alliance,
    resolve_battle_alliance_vs_alliance, resolve_battle_simple, settlement_transfers,
    side_balance, split_by_weight, start_battle_agent_vs_alliance,
    start_battle_alliance_vs_alliance, start_battle_simple, Transfer,
};
use middle_earth_ai_program::error::GameError;
use middle_earth_ai_program::key::Key;
use middle_earth_ai_program::game::{initialize_game, Game};
use middle_earth_ai_program::registry::register_agent;

const AUTH: Key = Key { w0: 7, w1: 0, w2: 0, w3: 0 };
const STRANGER: Key = Key { w0: 8, w1: 0, w2: 0, w3: 0 };
const NOW: i64 = 1_700_000_000;

fn key(n: u64) -> Key {
    Key { w0: n, w1: 0, w2: 0, w3: 0 }
}

fn token_account(amount: u64) -> Vec<u8> {
    let mut d = vec![0u8; 165];
    d[64..72].copy_from_slice(&amount.to_le_bytes());
    d[108] = 1;
    d
}

fn setup(n: u64) -> (Game, Vec<Agent>) {
    let mut game = Game::new();
    initialize_game(&mut game, AUTH, 1, 255, NOW - 100_000).unwrap();
    let mut agents = Vec::new();
    for k in 0..n {
        let a = register_agent(&mut game, AUTH, key(100 + k), k as u8, 0, 0, format!("agent{}", k)).unwrap();
        agents.push(a);
    }
    (game, agents)
}

fn transfer(from: Key, to: Key, amount: u64) -> Transfer {
    Transfer { from, to, amount }
}

#[test]
fn simple_battle_scenario() {
    let (game, agents) = setup(2);
    let (mut w, mut l) = (agents[0], agents[1]);
    start_battle_simple(&game, &mut w, &mut l, NOW).unwrap();
    assert_eq!(w.battle_start_time, Some(NOW));
    assert_eq!(l.battle_start_time, Some(NOW));
    let later = NOW + 3600;
    let s = resolve_battle_simple(&game, AUTH, &mut w, &mut l, &token_account(1000), 20, later).unwrap();
    assert_eq!(s.event.transfer_amount, 200);
    assert_eq!(s.event.winner_id, w.id);
    assert_eq!(s.event.loser_id, l.id);
    assert_eq!(s.transfers, vec![transfer(l.key, w.key, 200)]);
    assert_eq!(w.last_attack, later);
    assert_eq!(l.last_attack, later);
    assert_eq!(w.battle_start_time, None);
    assert_eq!(l.battle_start_time, None);
}

#[test]
fn alliance_vs_alliance_scenario() {
    let (game, agents) = setup(4);
    let (mut la, mut pa, mut lb, mut pb) = (agents[0], agents[1], agents[2], agents[3]);
    start_battle_alliance_vs_alliance(&game, &mut la, &mut pa, &mut lb, &mut pb, NOW).unwrap();
    let s = resolve_battle_alliance_vs_alliance(
        &game,
        AUTH,
        &mut la,
        &mut pa,
        &mut lb,
        &mut pb,
        &token_account(1000),
        &token_account(1000),
        &token_account(600),
        &token_account(400),
        50,
        true,
        NOW + 3600,
    )
    .unwrap();
    assert_eq!(s.event.transfer_amount, 500);
    assert_eq!(s.event.winner_id, la.id);
    assert_eq!(s.event.loser_id, lb.id);
    // leader B loses 300, partner B 200; each winner gains 250
    assert_eq!(
        s.transfers,
        vec![
            transfer(lb.key, la.key, 250),
            transfer(lb.key, pa.key, 50),
            transfer(pb.key, pa.key, 200),
        ]
    );
    let out_lb: u64 = s.transfers.iter().filter(|t| t.from == lb.key).map(|t| t.amount).sum();
    let out_pb: u64 = s.transfers.iter().filter(|t| t.from == pb.key).map(|t| t.amount).sum();
    assert_eq!(out_lb, 300);
    assert_eq!(out_pb, 200);
    for a in [la, pa, lb, pb] {
        assert_eq!(a.last_attack, NOW + 3600);
        assert_eq!(a.battle_start_time, None);
    }
}

#[test]
fn alliance_split_matches_formula() {
    let (d1, d2) = split_by_weight(500, 600, 400);
    assert_eq!((d1, d2), (300, 200));
    let (d1, d2) = split_by_weight(100, 1, 2);
    assert_eq!((d1, d2), (33, 67));
    assert_eq!(split_by_weight(0, 0, 0), (0, 0));
    assert_eq!(split_by_weight(10, 0, 0), (0, 10));
}

#[test]
fn battle_conservation_on_values() {
    for (b1, b2, pct) in [(600u64, 400u64, 50u8), (1, 2, 99), (7, 0, 100), (0, 0, 30), (123456, 654321, 37)] {
        let total = side_balance(b1, b2).unwrap();
        let lost = loss_amount(total, pct).unwrap();
        assert!(lost <= total);
        let (d1, d2) = split_by_weight(lost, b1, b2);
        assert_eq!(d1 + d2, lost);
        assert!(d1 <= b1 && d2 <= b2);
    }
}

#[test]
fn loss_amount_values() {
    assert_eq!(loss_amount(1000, 20), Ok(200));
    assert_eq!(loss_amount(999, 33), Ok(329));
    assert_eq!(loss_amount(u64::MAX, 100), Ok(u64::MAX));
    assert_eq!(loss_amount(1000, 101), Err(GameError::InsufficientFunds));
    assert_eq!(loss_amount(0, 255), Ok(0));
}

#[test]
fn side_balance_overflow() {
    assert_eq!(side_balance(u64::MAX, 1), Err(GameError::InsufficientFunds));
    assert_eq!(side_balance(5, 6), Ok(11));
}

#[test]
fn transfer_plan_skips_empty_transfers() {
    assert_eq!(settlement_transfers(key(1), 0, key(1), 0, key(2), 0, key(2), 0), vec![]);
    assert_eq!(
        settlement_transfers(key(1), 10, key(1), 0, key(2), 4, key(3), 6),
        vec![transfer(key(1), key(2), 4), transfer(key(1), key(3), 6)]
    );
}

#[test]
fn agent_wins_against_alliance() {
    let (game, agents) = setup(3);
    let (mut s, mut l, mut p) = (agents[0], agents[1], agents[2]);
    start_battle_agent_vs_alliance(&game, &mut s, &mut l, &mut p, NOW).unwrap();
    let r = resolve_battle_agent_vs_alliance(
        &game, AUTH, &mut s, &mut l, &mut p,
        &token_account(50), &token_account(600), &token_account(400),
        50, true, NOW + 3500,
    )
    .unwrap();
    assert_eq!(r.event.transfer_amount, 500);
    assert_eq!(r.transfers, vec![transfer(l.key, s.key, 300), transfer(p.key, s.key, 200)]);
}

#[test]
fn alliance_wins_against_agent() {
    let (game, agents) = setup(3);
    let (mut s, mut l, mut p) = (agents[0], agents[1], agents[2]);
    start_battle_agent_vs_alliance(&game, &mut s, &mut l, &mut p, NOW).unwrap();
    let r = resolve_battle_agent_vs_alliance(
        &game, AUTH, &mut s, &mut l, &mut p,
        &token_account(1000), &token_account(300), &token_account(100),
        10, false, NOW + 3500,
    )
    .unwrap();
    assert_eq!(r.event.transfer_amount, 100);
    assert_eq!(r.event.winner_id, l.id);
    assert_eq!(r.transfers, vec![transfer(s.key, l.key, 75), transfer(s.key, p.key, 25)]);
}

#[test]
fn loser_with_zero_balance_moves_nothing() {
    let (game, agents) = setup(2);
    let (mut w, mut l) = (agents[0], agents[1]);
    start_battle_simple(&game, &mut w, &mut l, NOW).unwrap();
    let s = resolve_battle_simple(&game, AUTH, &mut w, &mut l, &token_account(0), 20, NOW + 3600).unwrap();
    assert_eq!(s.event.transfer_amount, 0);
    assert!(s.transfers.is_empty());
}

#[test]
fn resolve_before_start_fails() {
    let (game, agents) = setup(2);
    let (mut w, mut l) = (agents[0], agents[1]);
    let before = (w, l);
    let r = resolve_battle_simple(&game, AUTH, &mut w, &mut l, &token_account(10), 20, NOW);
    assert_eq!(r.unwrap_err(), GameError::BattleNotStarted);
    assert_eq!((w, l), before);
}

#[test]
fn resolve_too_early_fails() {
    let (game, agents) = setup(3);
    let (mut s, mut l, mut p) = (agents[0], agents[1], agents[2]);
    start_battle_agent_vs_alliance(&game, &mut s, &mut l, &mut p, NOW).unwrap();
    let r = resolve_battle_agent_vs_alliance(
        &game, AUTH, &mut s, &mut l, &mut p,
        &token_account(1), &token_account(1), &token_account(1),
        10, true, NOW + 3499,
    );
    assert_eq!(r.unwrap_err(), GameError::BattleNotReadyToResolve);
    assert_eq!(s.battle_start_time, Some(NOW));
}

#[test]
fn resolve_by_stranger_fails() {
    let (game, agents) = setup(2);
    let (mut w, mut l) = (agents[0], agents[1]);
    start_battle_simple(&game, &mut w, &mut l, NOW).unwrap();
    let r = resolve_battle_simple(&game, STRANGER, &mut w, &mut l, &token_account(10), 20, NOW + 3600);
    assert_eq!(r.unwrap_err(), GameError::Unauthorized);
}

#[test]
fn resolve_during_attack_cooldown_fails() {
    let (game, agents) = setup(2);
    let (mut w, mut l) = (agents[0], agents[1]);
    w.last_attack = NOW;
    start_battle_simple(&game, &mut w, &mut l, NOW).unwrap();
    let r = resolve_battle_simple(&game, AUTH, &mut w, &mut l, &token_account(10), 20, NOW + 3600);
    assert_eq!(r.unwrap_err(), GameError::BattleCooldown);
    assert_eq!(w.battle_start_time, Some(NOW));
}

#[test]
fn resolve_with_bad_token_account_fails() {
    let (game, agents) = setup(2);
    let (mut w, mut l) = (agents[0], agents[1]);
    start_battle_simple(&game, &mut w, &mut l, NOW).unwrap();
    let mut data = token_account(10);
    data[108] = 0;
    let r = resolve_battle_simple(&game, AUTH, &mut w, &mut l, &data, 20, NOW + 3600);
    assert_eq!(r.unwrap_err(), GameError::InvalidTokenAccount);
    let r = resolve_battle_simple(&game, AUTH, &mut w, &mut l, &[0u8; 10], 20, NOW + 3600);
    assert_eq!(r.unwrap_err(), GameError::InvalidTokenAccount);
}

#[test]
fn resolve_with_overflowing_alliance_fails() {
    let (game, agents) = setup(4);
    let (mut la, mut pa, mut lb, mut pb) = (agents[0], agents[1], agents[2], agents[3]);
    start_battle_alliance_vs_alliance(&game, &mut la, &mut pa, &mut lb, &mut pb, NOW).unwrap();
    let r = resolve_battle_alliance_vs_alliance(
        &game, AUTH, &mut la, &mut pa, &mut lb, &mut pb,
        &token_account(u64::MAX), &token_account(1), &token_account(1), &token_account(1),
        10, true, NOW + 3600,
    );
    assert_eq!(r.unwrap_err(), GameError::InsufficientFunds);
    assert_eq!(la.battle_start_time, Some(NOW));
}

#[test]
fn resolve_with_percent_over_hundred_fails() {
    let (game, agents) = setup(2);
    let (mut w, mut l) = (agents[0], agents[1]);
    start_battle_simple(&game, &mut w, &mut l, NOW).unwrap();
    let r = resolve_battle_simple(&game, AUTH, &mut w, &mut l, &token_account(1000), 150, NOW + 3600);
    assert_eq!(r.unwrap_err(), GameError::InsufficientFunds);
}

#[test]
fn start_twice_fails() {
    let (game, agents) = setup(2);
    let (mut w, mut l) = (agents[0], agents[1]);
    start_battle_simple(&game, &mut w, &mut l, NOW).unwrap();
    let r = start_battle_simple(&game, &mut w, &mut l, NOW + 1);
    assert_eq!(r, Err(GameError::BattleAlreadyStarted));
    assert_eq!(w.battle_start_time, Some(NOW));
}

#[test]
fn start_with_dead_agent_fails() {
    let (game, agents) = setup(3);
    let (mut a, mut l, mut p) = (agents[0], agents[1], agents[2]);
    p.is_alive = false;
    let r = start_battle_agent_vs_alliance(&game, &mut a, &mut l, &mut p, NOW);
    assert_eq!(r, Err(GameError::AgentNotAlive));
    assert_eq!(a.battle_start_time, None);
}

#[test]
fn start_in_inactive_game_fails() {
    let (mut game, agents) = setup(2);
    game.is_active = false;
    let (mut w, mut l) = (agents[0], agents[1]);
    assert_eq!(start_battle_simple(&game, &mut w, &mut l, NOW), Err(GameError::GameNotActive));
}

#[test]
fn reset_clears_battle_state() {
    let (game, agents) = setup(4);
    let (mut a, mut b, mut c, mut d) = (agents[0], agents[1], agents[2], agents[3]);
    a.battle_start_time = Some(5);
    a.last_attack = 9;
    b.next_move_time = 11;
    assert_eq!(reset_battle_times(&game, STRANGER, &mut a, &mut b, &mut c, &mut d), Err(GameError::Unauthorized));
    assert_eq!(a.last_attack, 9);
    reset_battle_times(&game, AUTH, &mut a, &mut b, &mut c, &mut d).unwrap();
    assert_eq!(a.battle_start_time, None);
    assert_eq!(a.last_attack, 0);
    assert_eq!(b.next_move_time, 0);
}
