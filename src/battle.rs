//! Battle settlement: starting battles, waiting out their duration, and
//! moving a percentage of the losing side's tokens to the winning side.
//!
//! Where a side has two members, the amount it loses (or gains) is split in
//! proportion to the members' balances: the first member's part is rounded
//! down and the second member takes the remainder, so the parts always add
//! up to the whole.

use vstd::prelude::*;
use crate::agent::{cooldown_over, Agent};
use crate::arith::{lemma_share_bounded, lemma_share_within_parts, share_of};
use crate::constants::{
    AGENT_VS_ALLIANCE_COOLDOWN, ALLIANCE_VS_ALLIANCE_COOLDOWN, BATTLE_COOLDOWN,
    SIMPLE_BATTLE_COOLDOWN,
};
use crate::error::{as_result, first_error, result_error, GameError};
use crate::key::Key;
use crate::game::{active_error, authority_error, Game};
use crate::token_account::{balance_of, token_balance, token_error};

verus! {

/// A movement of `amount` tokens from the token account of agent `from` to
/// that of agent `to`.
#[derive(Clone, Copy, Debug, PartialEq, Eq, Structural)]
pub struct Transfer {
    pub from: Key,
    pub to: Key,
    pub amount: u64,
}

/// The outcome of a battle as it is reported.
#[derive(Clone, Copy, Debug, PartialEq, Eq, Structural)]
pub struct BattleResolved {
    pub winner_id: u8,
    pub loser_id: u8,
    pub transfer_amount: u64,
}

/// A resolved battle: its report and the transfers the ledger must make.
#[derive(Clone, Debug)]
pub struct Settlement {
    pub event: BattleResolved,
    pub transfers: Vec<Transfer>,
}

// ---------------------------------------------------------------------------
// Settlement arithmetic
// ---------------------------------------------------------------------------

/// `floor(balance * percent / 100)`.
pub open spec fn spec_loss(balance: int, percent: int) -> int {
    balance * percent / 100
}

/// What a side with `balance` tokens loses at `percent`, or
/// `InsufficientFunds` where that is more than the side holds.
pub open spec fn loss_result(balance: u64, percent: u8) -> Result<u64, GameError> {
    if spec_loss(balance as int, percent as int) <= balance as int {
        Ok(spec_loss(balance as int, percent as int) as u64)
    } else {
        Err(GameError::InsufficientFunds)
    }
}

/// The amount lost by a side holding `balance` at `percent_lost` percent,
/// computed in a wider type. A loss above the balance cannot be paid and is
/// refused with `InsufficientFunds`.
pub fn loss_amount(balance: u64, percent_lost: u8) -> (r: Result<u64, GameError>)
    ensures
        r == loss_result(balance, percent_lost),
{
    proof {
        assert(0 <= balance as int * percent_lost as int <= u64::MAX as int * 255)
            by (nonlinear_arith);
    }
    let lost: u128 = (balance as u128) * (percent_lost as u128) / 100;
    if lost > balance as u128 {
        return Err(GameError::InsufficientFunds);
    }
    Ok(lost as u64)
}

/// The combined balance of a two-member side, or `InsufficientFunds` where
/// it does not fit in a `u64`.
pub open spec fn side_result(b1: u64, b2: u64) -> Result<u64, GameError> {
    if b1 as int + b2 as int <= u64::MAX as int {
        Ok((b1 + b2) as u64)
    } else {
        Err(GameError::InsufficientFunds)
    }
}

pub fn side_balance(b1: u64, b2: u64) -> (r: Result<u64, GameError>)
    ensures
        r == side_result(b1, b2),
{
    match b1.checked_add(b2) {
        Some(total) => Ok(total),
        None => Err(GameError::InsufficientFunds),
    }
}

/// Splits `amount` between two members weighing `w1` and `w2`: the first
/// gets `floor(amount * w1 / (w1 + w2))` (nothing when both weigh zero), the
/// second the remainder.
pub fn split_by_weight(amount: u64, w1: u64, w2: u64) -> (r: (u64, u64))
    ensures
        r.0 as int == share_of(amount as int, w1 as int, w1 as int + w2 as int),
        r.0 + r.1 == amount,
{
    let whole: u128 = w1 as u128 + w2 as u128;
    if whole == 0 {
        return (0, amount);
    }
    proof {
        lemma_share_bounded(amount as int, w1 as int, whole as int);
        assert(0 <= amount as int * w1 as int <= u64::MAX as int * u64::MAX as int)
            by (nonlinear_arith);
    }
    let first: u128 = (amount as u128) * (w1 as u128) / whole;
    (first as u64, amount - first as u64)
}

// ---------------------------------------------------------------------------
// Transfer plans
// ---------------------------------------------------------------------------

/// `s` followed by a transfer of `amount` from `from` to `to`, if it moves
/// anything.
pub open spec fn with_transfer(s: Seq<Transfer>, from: Key, to: Key, amount: int) -> Seq<Transfer> {
    if amount > 0 {
        s.push(Transfer { from, to, amount: amount as u64 })
    } else {
        s
    }
}

/// The transfers that take `d1` from `l1` and `d2` from `l2` and give `g1`
/// to `w1` and `g2` to `w2` (where `d1 + d2 == g1 + g2`): the first loser
/// pays the first winner as much as it can, then the second winner; the
/// second loser covers what is left.
pub open spec fn spec_plan(
    l1: Key,
    d1: int,
    l2: Key,
    d2: int,
    w1: Key,
    g1: int,
    w2: Key,
    g2: int,
) -> Seq<Transfer> {
    let t11 = if d1 <= g1 {
        d1
    } else {
        g1
    };
    let t12 = d1 - t11;
    let t21 = g1 - t11;
    let t22 = d2 - t21;
    with_transfer(
        with_transfer(with_transfer(with_transfer(Seq::empty(), l1, w1, t11), l1, w2, t12), l2, w1, t21),
        l2,
        w2,
        t22,
    )
}

/// The sum of the amounts of `s`.
pub open spec fn total_moved(s: Seq<Transfer>) -> int
    decreases s.len(),
{
    if s.len() == 0 {
        0
    } else {
        total_moved(s.drop_last()) + s.last().amount as int
    }
}

/// What `s` takes out of agent `k`.
pub open spec fn outflow(s: Seq<Transfer>, k: Key) -> int
    decreases s.len(),
{
    if s.len() == 0 {
        0
    } else {
        outflow(s.drop_last(), k) + if s.last().from == k {
            s.last().amount as int
        } else {
            0
        }
    }
}

/// What `s` puts into agent `k`.
pub open spec fn inflow(s: Seq<Transfer>, k: Key) -> int
    decreases s.len(),
{
    if s.len() == 0 {
        0
    } else {
        inflow(s.drop_last(), k) + if s.last().to == k {
            s.last().amount as int
        } else {
            0
        }
    }
}

fn push_transfer(v: &mut Vec<Transfer>, from: Key, to: Key, amount: u64)
    ensures
        final(v)@ == with_transfer(old(v)@, from, to, amount as int),
{
    if amount > 0 {
        v.push(Transfer { from, to, amount });
    }
}

/// The transfers of `spec_plan`.
pub fn settlement_transfers(
    l1: Key,
    d1: u64,
    l2: Key,
    d2: u64,
    w1: Key,
    g1: u64,
    w2: Key,
    g2: u64,
) -> (r: Vec<Transfer>)
    requires
        d1 + d2 == g1 + g2,
    ensures
        r@ == spec_plan(l1, d1 as int, l2, d2 as int, w1, g1 as int, w2, g2 as int),
{
    let t11 = if d1 <= g1 {
        d1
    } else {
        g1
    };
    let t12 = d1 - t11;
    let t21 = g1 - t11;
    let t22 = d2 - t21;
    let mut v: Vec<Transfer> = Vec::new();
    push_transfer(&mut v, l1, w1, t11);
    push_transfer(&mut v, l1, w2, t12);
    push_transfer(&mut v, l2, w1, t21);
    push_transfer(&mut v, l2, w2, t22);
    v
}

// ---------------------------------------------------------------------------
// Battle state checks
// ---------------------------------------------------------------------------

/// Why agent `a` cannot take part in a new battle, if it cannot.
pub open spec fn start_error(a: Agent) -> Option<GameError> {
    if !a.is_alive {
        Some(GameError::AgentNotAlive)
    } else if a.battle_start_time is Some {
        Some(GameError::BattleAlreadyStarted)
    } else {
        None
    }
}

/// Why the battle of `a` cannot be resolved at `now`, if it cannot: it must
/// have started at least `duration` seconds ago.
pub open spec fn readiness_error(a: Agent, duration: i64, now: i64) -> Option<GameError> {
    match a.battle_start_time {
        None => Some(GameError::BattleNotStarted),
        Some(s) => if !cooldown_over(s, duration, now) {
            Some(GameError::BattleNotReadyToResolve)
        } else {
            None
        },
    }
}

/// `BattleCooldown` if `a` attacked less than four hours before `now`.
pub open spec fn attack_error(a: Agent, now: i64) -> Option<GameError> {
    if cooldown_over(a.last_attack, BATTLE_COOLDOWN, now) {
        None
    } else {
        Some(GameError::BattleCooldown)
    }
}

/// `a` once a battle has started at `now`.
pub open spec fn started(a: Agent, now: i64) -> Agent {
    Agent { battle_start_time: Some(now), ..a }
}

/// `a` once its battle was resolved at `now`.
pub open spec fn resolved(a: Agent, now: i64) -> Agent {
    Agent { last_attack: now, battle_start_time: None, ..a }
}

fn check_start(a: &Agent) -> (r: Result<(), GameError>)
    ensures
        r == as_result(start_error(*a)),
{
    if !a.is_alive {
        return Err(GameError::AgentNotAlive);
    }
    if a.battle_start_time.is_some() {
        return Err(GameError::BattleAlreadyStarted);
    }
    Ok(())
}

fn check_ready(a: &Agent, duration: i64, now: i64) -> (r: Result<(), GameError>)
    ensures
        r == as_result(readiness_error(*a, duration, now)),
{
    match a.battle_start_time {
        None => Err(GameError::BattleNotStarted),
        Some(s) => if crate::agent::is_cooldown_over(s, duration, now) {
            Ok(())
        } else {
            Err(GameError::BattleNotReadyToResolve)
        },
    }
}

fn check_attack(a: &Agent, now: i64) -> (r: Result<(), GameError>)
    ensures
        r == as_result(attack_error(*a, now)),
{
    a.validate_attack(now)
}

fn read_balance(d: &[u8]) -> (r: Result<u64, GameError>)
    ensures
        r is Err <==> token_error(d@) is Some,
        r is Err ==> r == Err::<u64, GameError>(GameError::InvalidTokenAccount),
        r is Ok ==> r == Ok::<u64, GameError>(balance_of(d@)),
{
    token_balance(d)
}

fn mark_started(a: &mut Agent, now: i64)
    ensures
        *final(a) == started(*old(a), now),
{
    a.battle_start_time = Some(now);
}

fn mark_resolved(a: &mut Agent, now: i64)
    ensures
        *final(a) == resolved(*old(a), now),
{
    a.last_attack = now;
    a.battle_start_time = None;
}

// ---------------------------------------------------------------------------
// Starting battles
// ---------------------------------------------------------------------------

/// Starts a one-on-one battle at `now`. Both agents must be alive and out of
/// battle.
pub fn start_battle_simple(game: &Game, winner: &mut Agent, loser: &mut Agent, now: i64) -> (r:
    Result<(), GameError>)
    ensures
        r == as_result(
            first_error(
                active_error(game),
                first_error(start_error(*old(winner)), start_error(*old(loser))),
            ),
        ),
        r is Err ==> *final(winner) == *old(winner) && *final(loser) == *old(loser),
        r is Ok ==> *final(winner) == started(*old(winner), now) && *final(loser) == started(
            *old(loser),
            now,
        ),
{
    game.check_active()?;
    check_start(winner)?;
    check_start(loser)?;
    mark_started(winner, now);
    mark_started(loser, now);
    Ok(())
}

/// Starts a battle of `attacker` against the alliance of `alliance_leader`
/// and `alliance_partner` at `now`.
pub fn start_battle_agent_vs_alliance(
    game: &Game,
    attacker: &mut Agent,
    alliance_leader: &mut Agent,
    alliance_partner: &mut Agent,
    now: i64,
) -> (r: Result<(), GameError>)
    ensures
        r == as_result(
            first_error(
                active_error(game),
                first_error(
                    start_error(*old(attacker)),
                    first_error(start_error(*old(alliance_leader)), start_error(*old(alliance_partner))),
                ),
            ),
        ),
        r is Err ==> *final(attacker) == *old(attacker) && *final(alliance_leader) == *old(alliance_leader)
            && *final(alliance_partner) == *old(alliance_partner),
        r is Ok ==> *final(attacker) == started(*old(attacker), now) && *final(alliance_leader)
            == started(*old(alliance_leader), now) && *final(alliance_partner) == started(
            *old(alliance_partner),
            now,
        ),
{
    game.check_active()?;
    check_start(attacker)?;
    check_start(alliance_leader)?;
    check_start(alliance_partner)?;
    mark_started(attacker, now);
    mark_started(alliance_leader, now);
    mark_started(alliance_partner, now);
    Ok(())
}

/// Starts a battle between the alliance of `leader_a` and `partner_a` and
/// that of `leader_b` and `partner_b` at `now`.
pub fn start_battle_alliance_vs_alliance(
    game: &Game,
    leader_a: &mut Agent,
    partner_a: &mut Agent,
    leader_b: &mut Agent,
    partner_b: &mut Agent,
    now: i64,
) -> (r: Result<(), GameError>)
    ensures
        r == as_result(
            first_error(
                active_error(game),
                first_error(
                    first_error(start_error(*old(leader_a)), start_error(*old(partner_a))),
                    first_error(start_error(*old(leader_b)), start_error(*old(partner_b))),
                ),
            ),
        ),
        r is Err ==> *final(leader_a) == *old(leader_a) && *final(partner_a) == *old(partner_a)
            && *final(leader_b) == *old(leader_b) && *final(partner_b) == *old(partner_b),
        r is Ok ==> *final(leader_a) == started(*old(leader_a), now) && *final(partner_a) == started(
            *old(partner_a),
            now,
        ) && *final(leader_b) == started(*old(leader_b), now) && *final(partner_b) == started(
            *old(partner_b),
            now,
        ),
{
    game.check_active()?;
    check_start(leader_a)?;
    check_start(partner_a)?;
    check_start(leader_b)?;
    check_start(partner_b)?;
    mark_started(leader_a, now);
    mark_started(partner_a, now);
    mark_started(leader_b, now);
    mark_started(partner_b, now);
    Ok(())
}

// ---------------------------------------------------------------------------
// Resolving battles
// ---------------------------------------------------------------------------

/// The transfers by which the side of `l1` and `l2`, holding `b1` and `b2`,
/// pays `lost` to the single winner `w`.
pub open spec fn pair_loses_plan(l1: Key, b1: u64, l2: Key, b2: u64, w: Key, lost: int) -> Seq<
    Transfer,
> {
    let d1 = share_of(lost, b1 as int, b1 as int + b2 as int);
    spec_plan(l1, d1, l2, lost - d1, w, lost, w, 0)
}

/// The transfers by which the single loser `l` pays `lost` to the side of
/// `w1` and `w2`, holding `c1` and `c2`.
pub open spec fn pair_wins_plan(l: Key, w1: Key, c1: u64, w2: Key, c2: u64, lost: int) -> Seq<
    Transfer,
> {
    let g1 = share_of(lost, c1 as int, c1 as int + c2 as int);
    spec_plan(l, lost, l, 0, w1, g1, w2, lost - g1)
}

/// The transfers by which the side of `l1` and `l2` (holding `b1`, `b2`)
/// pays `lost` to the side of `w1` and `w2` (holding `c1`, `c2`).
pub open spec fn pair_vs_pair_plan(
    l1: Key,
    b1: u64,
    l2: Key,
    b2: u64,
    w1: Key,
    c1: u64,
    w2: Key,
    c2: u64,
    lost: int,
) -> Seq<Transfer> {
    let d1 = share_of(lost, b1 as int, b1 as int + b2 as int);
    let g1 = share_of(lost, c1 as int, c1 as int + c2 as int);
    spec_plan(l1, d1, l2, lost - d1, w1, g1, w2, lost - g1)
}

/// Why a one-on-one battle cannot be resolved, if it cannot.
pub open spec fn simple_resolution_error(
    game: &Game,
    authority: Key,
    winner: Agent,
    loser: Agent,
    loser_token: Seq<u8>,
    percent_lost: u8,
    now: i64,
) -> Option<GameError> {
    let d = SIMPLE_BATTLE_COOLDOWN;
    first_error(
        authority_error(game, authority),
        first_error(
            first_error(readiness_error(winner, d, now), readiness_error(loser, d, now)),
            first_error(
                first_error(attack_error(winner, now), attack_error(loser, now)),
                first_error(
                    token_error(loser_token),
                    result_error(loss_result(balance_of(loser_token), percent_lost)),
                ),
            ),
        ),
    )
}

/// Resolves a one-on-one battle at `now`: `loser` pays `winner`
/// `floor(balance * percent_lost / 100)` of the balance its token account
/// holds. Only the game's authority may resolve, once both agents have been
/// in battle for an hour and neither attacked in the last four hours. Both
/// leave the battle with their last attack stamped at `now`.
pub fn resolve_battle_simple(
    game: &Game,
    authority: Key,
    winner: &mut Agent,
    loser: &mut Agent,
    loser_token: &[u8],
    percent_lost: u8,
    now: i64,
) -> (r: Result<Settlement, GameError>)
    ensures
        r is Err <==> simple_resolution_error(
            game,
            authority,
            *old(winner),
            *old(loser),
            loser_token@,
            percent_lost,
            now,
        ) is Some,
        r is Err ==> r == Err::<Settlement, GameError>(
            simple_resolution_error(
                game,
                authority,
                *old(winner),
                *old(loser),
                loser_token@,
                percent_lost,
                now,
            ).unwrap(),
        ) && *final(winner) == *old(winner) && *final(loser) == *old(loser),
        r is Ok ==> {
            let lost = spec_loss(balance_of(loser_token@) as int, percent_lost as int);
            &&& *final(winner) == resolved(*old(winner), now)
            &&& *final(loser) == resolved(*old(loser), now)
            &&& r->Ok_0.event == (BattleResolved {
                winner_id: old(winner).id,
                loser_id: old(loser).id,
                transfer_amount: lost as u64,
            })
            &&& r->Ok_0.transfers@ == spec_plan(
                old(loser).key,
                lost,
                old(loser).key,
                0,
                old(winner).key,
                lost,
                old(winner).key,
                0,
            )
        },
{
    game.check_authority(authority)?;
    check_ready(winner, SIMPLE_BATTLE_COOLDOWN, now)?;
    check_ready(loser, SIMPLE_BATTLE_COOLDOWN, now)?;
    check_attack(winner, now)?;
    check_attack(loser, now)?;
    let loser_balance = read_balance(loser_token)?;
    let lost = loss_amount(loser_balance, percent_lost)?;
    mark_resolved(winner, now);
    mark_resolved(loser, now);
    let transfers = settlement_transfers(loser.key, lost, loser.key, 0, winner.key, lost, winner.key, 0);
    Ok(
        Settlement {
            event: BattleResolved { winner_id: winner.id, loser_id: loser.id, transfer_amount: lost },
            transfers,
        },
    )
}

/// Why a battle of `single` against the alliance of `leader` and `partner`
/// cannot be resolved, if it cannot.
pub open spec fn agent_vs_alliance_error(
    game: &Game,
    authority: Key,
    single: Agent,
    leader: Agent,
    partner: Agent,
    single_token: Seq<u8>,
    leader_token: Seq<u8>,
    partner_token: Seq<u8>,
    percent_lost: u8,
    agent_is_winner: bool,
    now: i64,
) -> Option<GameError> {
    let d = AGENT_VS_ALLIANCE_COOLDOWN;
    let (s, l, p) = (balance_of(single_token), balance_of(leader_token), balance_of(partner_token));
    first_error(
        authority_error(game, authority),
        first_error(
            first_error(
                readiness_error(single, d, now),
                first_error(readiness_error(leader, d, now), readiness_error(partner, d, now)),
            ),
            first_error(
                first_error(
                    attack_error(single, now),
                    first_error(attack_error(leader, now), attack_error(partner, now)),
                ),
                first_error(
                    first_error(
                        token_error(single_token),
                        first_error(token_error(leader_token), token_error(partner_token)),
                    ),
                    first_error(
                        result_error(side_result(l, p)),
                        if agent_is_winner {
                            result_error(loss_result((l + p) as u64, percent_lost))
                        } else {
                            result_error(loss_result(s, percent_lost))
                        },
                    ),
                ),
            ),
        ),
    )
}

/// Resolves a battle of `single_agent` against the alliance of
/// `alliance_leader` and `alliance_partner` at `now`.
///
/// If the single agent wins, the alliance loses `percent_lost` percent of
/// its combined balance, split between its members in proportion to their
/// balances. Otherwise the single agent loses that percentage of its own
/// balance, and the members gain it in proportion to their balances. Only
/// the game's authority may resolve, once all three agents have been in
/// battle for the battle's duration and none attacked in the last four
/// hours.
pub fn resolve_battle_agent_vs_alliance(
    game: &Game,
    authority: Key,
    single_agent: &mut Agent,
    alliance_leader: &mut Agent,
    alliance_partner: &mut Agent,
    single_agent_token: &[u8],
    alliance_leader_token: &[u8],
    alliance_partner_token: &[u8],
    percent_lost: u8,
    agent_is_winner: bool,
    now: i64,
) -> (r: Result<Settlement, GameError>)
    ensures
        ({
            let e = agent_vs_alliance_error(
                game,
                authority,
                *old(single_agent),
                *old(alliance_leader),
                *old(alliance_partner),
                single_agent_token@,
                alliance_leader_token@,
                alliance_partner_token@,
                percent_lost,
                agent_is_winner,
                now,
            );
            &&& r is Err <==> e is Some
            &&& r is Err ==> r == Err::<Settlement, GameError>(e.unwrap()) && *final(single_agent)
                == *old(single_agent) && *final(alliance_leader) == *old(alliance_leader)
                && *final(alliance_partner) == *old(alliance_partner)
        }),
        r is Ok ==> {
            let (s, l, p) = (
                balance_of(single_agent_token@),
                balance_of(alliance_leader_token@),
                balance_of(alliance_partner_token@),
            );
            let (sk, lk, pk) = (old(single_agent).key, old(alliance_leader).key, old(
                alliance_partner,
            ).key);
            &&& *final(single_agent) == resolved(*old(single_agent), now)
            &&& *final(alliance_leader) == resolved(*old(alliance_leader), now)
            &&& *final(alliance_partner) == resolved(*old(alliance_partner), now)
            &&& if agent_is_winner {
                let lost = spec_loss(l + p, percent_lost as int);
                &&& r->Ok_0.event == (BattleResolved {
                    winner_id: old(single_agent).id,
                    loser_id: old(alliance_leader).id,
                    transfer_amount: lost as u64,
                })
                &&& r->Ok_0.transfers@ == pair_loses_plan(lk, l, pk, p, sk, lost)
            } else {
                let lost = spec_loss(s as int, percent_lost as int);
                &&& r->Ok_0.event == (BattleResolved {
                    winner_id: old(alliance_leader).id,
                    loser_id: old(single_agent).id,
                    transfer_amount: lost as u64,
                })
                &&& r->Ok_0.transfers@ == pair_wins_plan(sk, lk, l, pk, p, lost)
            }
        },
{
    let d = AGENT_VS_ALLIANCE_COOLDOWN;
    game.check_authority(authority)?;
    check_ready(single_agent, d, now)?;
    check_ready(alliance_leader, d, now)?;
    check_ready(alliance_partner, d, now)?;
    check_attack(single_agent, now)?;
    check_attack(alliance_leader, now)?;
    check_attack(alliance_partner, now)?;
    let s = read_balance(single_agent_token)?;
    let l = read_balance(alliance_leader_token)?;
    let p = read_balance(alliance_partner_token)?;
    let alliance_balance = side_balance(l, p)?;
    let (sk, lk, pk) = (single_agent.key, alliance_leader.key, alliance_partner.key);
    let settlement = if agent_is_winner {
        let lost = loss_amount(alliance_balance, percent_lost)?;
        let (d1, d2) = split_by_weight(lost, l, p);
        Settlement {
            event: BattleResolved {
                winner_id: single_agent.id,
                loser_id: alliance_leader.id,
                transfer_amount: lost,
            },
            transfers: settlement_transfers(lk, d1, pk, d2, sk, lost, sk, 0),
        }
    } else {
        let lost = loss_amount(s, percent_lost)?;
        let (g1, g2) = split_by_weight(lost, l, p);
        Settlement {
            event: BattleResolved {
                winner_id: alliance_leader.id,
                loser_id: single_agent.id,
                transfer_amount: lost,
            },
            transfers: settlement_transfers(sk, lost, sk, 0, lk, g1, pk, g2),
        }
    };
    mark_resolved(single_agent, now);
    mark_resolved(alliance_leader, now);
    mark_resolved(alliance_partner, now);
    Ok(settlement)
}

/// Why a battle between the alliance of `leader_a` and `partner_a` and that
/// of `leader_b` and `partner_b` cannot be resolved, if it cannot.
pub open spec fn alliance_vs_alliance_error(
    game: &Game,
    authority: Key,
    leader_a: Agent,
    partner_a: Agent,
    leader_b: Agent,
    partner_b: Agent,
    leader_a_token: Seq<u8>,
    partner_a_token: Seq<u8>,
    leader_b_token: Seq<u8>,
    partner_b_token: Seq<u8>,
    percent_lost: u8,
    alliance_a_wins: bool,
    now: i64,
) -> Option<GameError> {
    let d = ALLIANCE_VS_ALLIANCE_COOLDOWN;
    let (la, pa, lb, pb) = (
        balance_of(leader_a_token),
        balance_of(partner_a_token),
        balance_of(leader_b_token),
        balance_of(partner_b_token),
    );
    first_error(
        authority_error(game, authority),
        first_error(
            first_error(
                first_error(readiness_error(leader_a, d, now), readiness_error(partner_a, d, now)),
                first_error(readiness_error(leader_b, d, now), readiness_error(partner_b, d, now)),
            ),
            first_error(
                first_error(
                    first_error(attack_error(leader_a, now), attack_error(partner_a, now)),
                    first_error(attack_error(leader_b, now), attack_error(partner_b, now)),
                ),
                first_error(
                    first_error(
                        first_error(token_error(leader_a_token), token_error(partner_a_token)),
                        first_error(token_error(leader_b_token), token_error(partner_b_token)),
                    ),
                    first_error(
                        first_error(result_error(side_result(la, pa)), result_error(side_result(lb, pb))),
                        if alliance_a_wins {
                            result_error(loss_result((lb + pb) as u64, percent_lost))
                        } else {
                            result_error(loss_result((la + pa) as u64, percent_lost))
                        },
                    ),
                ),
            ),
        ),
    )
}

/// Resolves a battle between alliance A (`leader_a`, `partner_a`) and
/// alliance B (`leader_b`, `partner_b`) at `now`. The losing alliance loses
/// `percent_lost` percent of its combined balance, split between its
/// members in proportion to their balances; the winners gain it in
/// proportion to theirs. Only the game's authority may resolve, once all
/// four agents have been in battle for an hour and none attacked in the
/// last four hours.
pub fn resolve_battle_alliance_vs_alliance(
    game: &Game,
    authority: Key,
    leader_a: &mut Agent,
    partner_a: &mut Agent,
    leader_b: &mut Agent,
    partner_b: &mut Agent,
    leader_a_token: &[u8],
    partner_a_token: &[u8],
    leader_b_token: &[u8],
    partner_b_token: &[u8],
    percent_lost: u8,
    alliance_a_wins: bool,
    now: i64,
) -> (r: Result<Settlement, GameError>)
    ensures
        ({
            let e = alliance_vs_alliance_error(
                game,
                authority,
                *old(leader_a),
                *old(partner_a),
                *old(leader_b),
                *old(partner_b),
                leader_a_token@,
                partner_a_token@,
                leader_b_token@,
                partner_b_token@,
                percent_lost,
                alliance_a_wins,
                now,
            );
            &&& r is Err <==> e is Some
            &&& r is Err ==> r == Err::<Settlement, GameError>(e.unwrap()) && *final(leader_a)
                == *old(leader_a) && *final(partner_a) == *old(partner_a) && *final(leader_b)
                == *old(leader_b) && *final(partner_b) == *old(partner_b)
        }),
        r is Ok ==> {
            let (la, pa, lb, pb) = (
                balance_of(leader_a_token@),
                balance_of(partner_a_token@),
                balance_of(leader_b_token@),
                balance_of(partner_b_token@),
            );
            let (kla, kpa, klb, kpb) = (
                old(leader_a).key,
                old(partner_a).key,
                old(leader_b).key,
                old(partner_b).key,
            );
            &&& *final(leader_a) == resolved(*old(leader_a), now)
            &&& *final(partner_a) == resolved(*old(partner_a), now)
            &&& *final(leader_b) == resolved(*old(leader_b), now)
            &&& *final(partner_b) == resolved(*old(partner_b), now)
            &&& if alliance_a_wins {
                let lost = spec_loss(lb + pb, percent_lost as int);
                &&& r->Ok_0.event == (BattleResolved {
                    winner_id: old(leader_a).id,
                    loser_id: old(leader_b).id,
                    transfer_amount: lost as u64,
                })
                &&& r->Ok_0.transfers@ == pair_vs_pair_plan(klb, lb, kpb, pb, kla, la, kpa, pa, lost)
            } else {
                let lost = spec_loss(la + pa, percent_lost as int);
                &&& r->Ok_0.event == (BattleResolved {
                    winner_id: old(leader_b).id,
                    loser_id: old(leader_a).id,
                    transfer_amount: lost as u64,
                })
                &&& r->Ok_0.transfers@ == pair_vs_pair_plan(kla, la, kpa, pa, klb, lb, kpb, pb, lost)
            }
        },
{
    let d = ALLIANCE_VS_ALLIANCE_COOLDOWN;
    game.check_authority(authority)?;
    check_ready(leader_a, d, now)?;
    check_ready(partner_a, d, now)?;
    check_ready(leader_b, d, now)?;
    check_ready(partner_b, d, now)?;
    check_attack(leader_a, now)?;
    check_attack(partner_a, now)?;
    check_attack(leader_b, now)?;
    check_attack(partner_b, now)?;
    let la = read_balance(leader_a_token)?;
    let pa = read_balance(partner_a_token)?;
    let lb = read_balance(leader_b_token)?;
    let pb = read_balance(partner_b_token)?;
    let balance_a = side_balance(la, pa)?;
    let balance_b = side_balance(lb, pb)?;
    let (kla, kpa, klb, kpb) = (leader_a.key, partner_a.key, leader_b.key, partner_b.key);
    let settlement = if alliance_a_wins {
        let lost = loss_amount(balance_b, percent_lost)?;
        let (d1, d2) = split_by_weight(lost, lb, pb);
        let (g1, g2) = split_by_weight(lost, la, pa);
        Settlement {
            event: BattleResolved {
                winner_id: leader_a.id,
                loser_id: leader_b.id,
                transfer_amount: lost,
            },
            transfers: settlement_transfers(klb, d1, kpb, d2, kla, g1, kpa, g2),
        }
    } else {
        let lost = loss_amount(balance_a, percent_lost)?;
        let (d1, d2) = split_by_weight(lost, la, pa);
        let (g1, g2) = split_by_weight(lost, lb, pb);
        Settlement {
            event: BattleResolved {
                winner_id: leader_b.id,
                loser_id: leader_a.id,
                transfer_amount: lost,
            },
            transfers: settlement_transfers(kla, d1, kpa, d2, klb, g1, kpb, g2),
        }
    };
    mark_resolved(leader_a, now);
    mark_resolved(partner_a, now);
    mark_resolved(leader_b, now);
    mark_resolved(partner_b, now);
    Ok(settlement)
}

/// `a` with its battle state cleared.
pub open spec fn battle_reset(a: Agent) -> Agent {
    Agent { battle_start_time: None, last_attack: 0, next_move_time: 0, ..a }
}

fn clear_battle(a: &mut Agent)
    ensures
        *final(a) == battle_reset(*old(a)),
{
    a.battle_start_time = None;
    a.last_attack = 0;
    a.next_move_time = 0;
}

/// Clears the battle start, last attack and next move time of four agents,
/// on behalf of the game's authority, while the game is active.
pub fn reset_battle_times(
    game: &Game,
    authority: Key,
    agent1: &mut Agent,
    agent2: &mut Agent,
    agent3: &mut Agent,
    agent4: &mut Agent,
) -> (r: Result<(), GameError>)
    ensures
        r == as_result(authority_error(game, authority)),
        r is Err ==> *final(agent1) == *old(agent1) && *final(agent2) == *old(agent2) && *final(agent3)
            == *old(agent3) && *final(agent4) == *old(agent4),
        r is Ok ==> *final(agent1) == battle_reset(*old(agent1)) && *final(agent2) == battle_reset(
            *old(agent2),
        ) && *final(agent3) == battle_reset(*old(agent3)) && *final(agent4) == battle_reset(
            *old(agent4),
        ),
{
    game.check_authority(authority)?;
    clear_battle(agent1);
    clear_battle(agent2);
    clear_battle(agent3);
    clear_battle(agent4);
    Ok(())
}

// ---------------------------------------------------------------------------
// Conservation
// ---------------------------------------------------------------------------

proof fn lemma_with_transfer(s: Seq<Transfer>, from: Key, to: Key, amount: int, k: Key)
    requires
        0 <= amount <= u64::MAX,
    ensures
        total_moved(with_transfer(s, from, to, amount)) == total_moved(s) + amount,
        outflow(with_transfer(s, from, to, amount), k) == outflow(s, k) + if from == k {
            amount
        } else {
            0
        },
        inflow(with_transfer(s, from, to, amount), k) == inflow(s, k) + if to == k {
            amount
        } else {
            0
        },
{
    if amount > 0 {
        let t = Transfer { from, to, amount: amount as u64 };
        assert(s.push(t).drop_last() =~= s);
    }
}

/// A settlement's transfers move exactly what the losers lose to the
/// winners: in all, `d1 + d2`; out of each agent, the losses it stands for;
/// into each agent, the gains it stands for (when no agent is on both
/// sides).
pub proof fn lemma_plan_flows(
    l1: Key,
    d1: int,
    l2: Key,
    d2: int,
    w1: Key,
    g1: int,
    w2: Key,
    g2: int,
    k: Key,
)
    requires
        0 <= d1 <= u64::MAX,
        0 <= d2 <= u64::MAX,
        0 <= g1 <= u64::MAX,
        0 <= g2 <= u64::MAX,
        d1 + d2 == g1 + g2,
        l1 != w1 && l1 != w2 && l2 != w1 && l2 != w2,
    ensures
        total_moved(spec_plan(l1, d1, l2, d2, w1, g1, w2, g2)) == d1 + d2,
        outflow(spec_plan(l1, d1, l2, d2, w1, g1, w2, g2), k) == (if k == l1 {
            d1
        } else {
            0
        }) + (if k == l2 {
            d2
        } else {
            0
        }),
        inflow(spec_plan(l1, d1, l2, d2, w1, g1, w2, g2), k) == (if k == w1 {
            g1
        } else {
            0
        }) + (if k == w2 {
            g2
        } else {
            0
        }),
{
    let t11 = if d1 <= g1 {
        d1
    } else {
        g1
    };
    let t12 = d1 - t11;
    let t21 = g1 - t11;
    let t22 = d2 - t21;
    let s0 = Seq::<Transfer>::empty();
    let s1 = with_transfer(s0, l1, w1, t11);
    let s2 = with_transfer(s1, l1, w2, t12);
    let s3 = with_transfer(s2, l2, w1, t21);
    lemma_with_transfer(s0, l1, w1, t11, k);
    lemma_with_transfer(s1, l1, w2, t12, k);
    lemma_with_transfer(s2, l2, w1, t21, k);
    lemma_with_transfer(s3, l2, w2, t22, k);
}

/// Battle conservation: a side holding `b1` and `b2` that loses at
/// `percent_lost` loses `total_lost`, at most what it holds, and the two
/// deductions add up to `total_lost` exactly, each within its member's
/// balance.
pub proof fn lemma_battle_conservation(b1: u64, b2: u64, percent_lost: u8)
    requires
        side_result(b1, b2) is Ok,
        loss_result((b1 + b2) as u64, percent_lost) is Ok,
    ensures
        ({
            let total = b1 + b2;
            let total_lost = spec_loss(total, percent_lost as int);
            let d1 = share_of(total_lost, b1 as int, total);
            let d2 = total_lost - d1;
            &&& total_lost <= total
            &&& d1 + d2 == total_lost
            &&& 0 <= d1 <= b1
            &&& 0 <= d2 <= b2
        }),
{
    let total = b1 + b2;
    let total_lost = spec_loss(total, percent_lost as int);
    assert(0 <= total * percent_lost as int) by (nonlinear_arith)
        requires
            total >= 0,
            percent_lost >= 0,
    ;
    lemma_share_bounded(total_lost, b1 as int, total);
    lemma_share_within_parts(total_lost, b1 as int, b2 as int);
}

/// Battle conservation for the transfers of an alliance-against-alliance
/// settlement: what leaves the two losers adds up to `total_lost` exactly,
/// each within its balance, and all of it reaches the two winners.
pub proof fn lemma_alliance_settlement_conservation(
    l1: Key,
    b1: u64,
    l2: Key,
    b2: u64,
    w1: Key,
    c1: u64,
    w2: Key,
    c2: u64,
    percent_lost: u8,
)
    requires
        side_result(b1, b2) is Ok,
        loss_result((b1 + b2) as u64, percent_lost) is Ok,
        l1 != l2 && w1 != w2,
        l1 != w1 && l1 != w2 && l2 != w1 && l2 != w2,
    ensures
        ({
            let total_lost = spec_loss(b1 + b2, percent_lost as int);
            let plan = pair_vs_pair_plan(l1, b1, l2, b2, w1, c1, w2, c2, total_lost);
            &&& total_lost <= b1 + b2
            &&& outflow(plan, l1) + outflow(plan, l2) == total_lost
            &&& outflow(plan, l1) <= b1 && outflow(plan, l2) <= b2
            &&& inflow(plan, w1) + inflow(plan, w2) == total_lost
            &&& total_moved(plan) == total_lost
        }),
{
    let total_lost = spec_loss(b1 + b2, percent_lost as int);
    lemma_battle_conservation(b1, b2, percent_lost);
    let d1 = share_of(total_lost, b1 as int, b1 + b2);
    let g1 = share_of(total_lost, c1 as int, c1 + c2);
    lemma_share_bounded(total_lost, c1 as int, c1 + c2);
    lemma_plan_flows(l1, d1, l2, total_lost - d1, w1, g1, w2, total_lost - g1, l1);
    lemma_plan_flows(l1, d1, l2, total_lost - d1, w1, g1, w2, total_lost - g1, l2);
    lemma_plan_flows(l1, d1, l2, total_lost - d1, w1, g1, w2, total_lost - g1, w1);
    lemma_plan_flows(l1, d1, l2, total_lost - d1, w1, g1, w2, total_lost - g1, w2);
}

} // verus!
