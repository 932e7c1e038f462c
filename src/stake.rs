//! The stake vault: each agent pools the tokens staked on it, and stakers
//! hold shares of that pool.
//!
//! A deposit mints shares at the pool's current rate and a withdrawal burns
//! them at the same rate, both rounded down, so that churn alone never
//! raises the value of a share at the expense of the pool. Every operation
//! keeps the shares of a stake and the agent's total in step.

use vstd::prelude::*;
use crate::agent::{cooldown_over, is_cooldown_over, Agent};
use crate::constants::{REWARD_CLAIM_COOLDOWN, SECONDS_PER_DAY, STAKE_LOCK_PERIOD, UNSTAKE_COOLDOWN};
use crate::error::{as_result, first_error, GameError};
use crate::key::Key;
use crate::game::{active_error, authority_error, Game, GameView, StakerStake};
use crate::token_account::{balance_of, token_balance, token_error};

verus! {

/// One staker's stake in one agent's vault.
#[derive(Clone, Copy, Debug, PartialEq, Eq, Structural)]
pub struct StakeInfo {
    /// The agent whose vault this stake is in.
    pub agent: Key,
    pub staker: Key,
    /// Tokens deposited and not yet withdrawn; for information only.
    pub amount: u64,
    /// Shares of the agent's vault that this stake holds.
    pub shares: u128,
    pub last_reward_timestamp: i64,
    /// Until when the stake is locked against withdrawal.
    pub cooldown_ends_at: i64,
    pub is_initialized: bool,
}

/// `a - b`, or zero where `b` is larger.
pub open spec fn sat_sub(a: int, b: int) -> int {
    if a >= b {
        a - b
    } else {
        0
    }
}

// ---------------------------------------------------------------------------
// Share arithmetic
// ---------------------------------------------------------------------------

/// Shares minted for `amount` tokens into a vault that held `balance_before`
/// tokens against `total_shares` shares: `amount` itself for an empty pool,
/// else `floor(amount * total_shares / balance_before)`.
pub open spec fn spec_shares_to_mint(amount: int, balance_before: int, total_shares: int) -> int {
    if balance_before == 0 || total_shares == 0 {
        amount
    } else {
        amount * total_shares / balance_before
    }
}

pub open spec fn mint_result(amount: u64, balance_before: u64, total_shares: u128) -> Result<
    u128,
    GameError,
> {
    if balance_before != 0 && total_shares != 0 && amount as int * total_shares as int
        > u128::MAX as int {
        Err(GameError::Overflow)
    } else {
        Ok(spec_shares_to_mint(amount as int, balance_before as int, total_shares as int) as u128)
    }
}

/// The shares a deposit of `amount` mints; `Overflow` where the product
/// `amount * total_shares` does not fit in a `u128`.
pub fn shares_to_mint(amount: u64, balance_before: u64, total_shares: u128) -> (r: Result<
    u128,
    GameError,
>)
    ensures
        r == mint_result(amount, balance_before, total_shares),
        r is Ok ==> r->Ok_0 as int == spec_shares_to_mint(
            amount as int,
            balance_before as int,
            total_shares as int,
        ),
{
    if balance_before == 0 || total_shares == 0 {
        return Ok(amount as u128);
    }
    match (amount as u128).checked_mul(total_shares) {
        Some(product) => {
            proof {
                assert(0 <= product as int / balance_before as int <= product as int)
                    by (nonlinear_arith)
                    requires
                        balance_before > 0,
                        product >= 0,
                ;
            }
            Ok(product / balance_before as u128)
        },
        None => Err(GameError::Overflow),
    }
}

/// Tokens paid out for redeeming `shares` of `total_shares` from a vault
/// holding `vault_balance`: `floor(shares * vault_balance / total_shares)`.
pub open spec fn spec_redeem_amount(shares: int, vault_balance: int, total_shares: int) -> int {
    shares * vault_balance / total_shares
}

pub open spec fn redeem_result(shares: u64, vault_balance: u64, total_shares: u128) -> Result<
    u64,
    GameError,
> {
    if total_shares == 0 || shares as int > total_shares as int {
        Err(GameError::InsufficientShares)
    } else {
        Ok(spec_redeem_amount(shares as int, vault_balance as int, total_shares as int) as u64)
    }
}

/// The tokens that redeeming `shares` pays; `InsufficientShares` where more
/// shares are redeemed than are outstanding.
pub fn redeem_amount(shares: u64, vault_balance: u64, total_shares: u128) -> (r: Result<
    u64,
    GameError,
>)
    ensures
        r == redeem_result(shares, vault_balance, total_shares),
        r is Ok ==> r->Ok_0 <= vault_balance,
{
    if total_shares == 0 || shares as u128 > total_shares {
        return Err(GameError::InsufficientShares);
    }
    proof {
        crate::arith::lemma_share_bounded(vault_balance as int, shares as int, total_shares as int);
        assert(shares as int * vault_balance as int == vault_balance as int * shares as int)
            by (nonlinear_arith);
        assert(0 <= shares as int * vault_balance as int <= u64::MAX as int * u64::MAX as int)
            by (nonlinear_arith);
    }
    let w: u128 = (shares as u128) * (vault_balance as u128) / total_shares;
    Ok(w as u64)
}

/// The reward of a stake holding `shares` of `total_shares` after `elapsed`
/// seconds at `daily` tokens per day for the whole vault:
/// `floor(floor(elapsed * daily * shares / total_shares) / 86400)`.
pub open spec fn spec_reward(elapsed: int, daily: int, shares: int, total_shares: int) -> int {
    if total_shares == 0 {
        0
    } else {
        elapsed * daily * shares / total_shares / SECONDS_PER_DAY as int
    }
}

pub open spec fn reward_result(elapsed: u64, daily: u64, shares: u128, total_shares: u128) -> Result<
    u128,
    GameError,
> {
    if total_shares != 0 && elapsed as int * daily as int * shares as int > u128::MAX as int {
        Err(GameError::Overflow)
    } else {
        Ok(spec_reward(elapsed as int, daily as int, shares as int, total_shares as int) as u128)
    }
}

/// The reward a stake has earned; `Overflow` where the product
/// `elapsed * daily * shares` does not fit in a `u128`.
pub fn reward_amount(elapsed: u64, daily: u64, shares: u128, total_shares: u128) -> (r: Result<
    u128,
    GameError,
>)
    ensures
        r == reward_result(elapsed, daily, shares, total_shares),
{
    if total_shares == 0 {
        return Ok(0);
    }
    proof {
        assert(0 <= elapsed as int * daily as int <= u64::MAX as int * u64::MAX as int)
            by (nonlinear_arith);
    }
    let rate: u128 = (elapsed as u128) * (daily as u128);
    match rate.checked_mul(shares) {
        Some(product) => {
            proof {
                assert(0 <= product as int / total_shares as int <= product as int)
                    by (nonlinear_arith)
                    requires
                        total_shares > 0,
                        product >= 0,
                ;
                assert(0 <= (product as int / total_shares as int) / SECONDS_PER_DAY as int
                    <= product as int / total_shares as int) by (nonlinear_arith)
                    requires
                        product as int / total_shares as int >= 0,
                ;
            }
            Ok(product / total_shares / (SECONDS_PER_DAY as u128))
        },
        None => Err(GameError::Overflow),
    }
}

// ---------------------------------------------------------------------------
// Per-staker totals kept by the game
// ---------------------------------------------------------------------------

/// `i` is the first entry of `s` that belongs to `staker`.
pub open spec fn is_first_entry(s: Seq<StakerStake>, staker: Key, i: int) -> bool {
    &&& 0 <= i < s.len()
    &&& s[i].staker == staker
    &&& forall|j: int| 0 <= j < i ==> s[j].staker != staker
}

/// The index of `staker`'s entry in `s`, or `-1` where it has none.
pub open spec fn entry_index(s: Seq<StakerStake>, staker: Key) -> int {
    if exists|i: int| is_first_entry(s, staker, i) {
        choose|i: int| is_first_entry(s, staker, i)
    } else {
        -1
    }
}

/// The totals once `amount` is added to `staker`'s entry, which is created
/// where it is missing; `Overflow` where the entry would leave `u64`.
pub open spec fn stakes_after_add(s: Seq<StakerStake>, staker: Key, amount: u64) -> Result<
    Seq<StakerStake>,
    GameError,
> {
    let i = entry_index(s, staker);
    if i < 0 {
        Ok(s.push(StakerStake { staker, total_stake: amount }))
    } else if s[i].total_stake + amount <= u64::MAX {
        Ok(s.update(i, StakerStake { staker, total_stake: (s[i].total_stake + amount) as u64 }))
    } else {
        Err(GameError::Overflow)
    }
}

/// The totals once `amount` is taken from `staker`'s entry (down to zero at
/// most); a staker without an entry leaves them alone.
pub open spec fn stakes_after_remove(s: Seq<StakerStake>, staker: Key, amount: u64) -> Seq<
    StakerStake,
> {
    let i = entry_index(s, staker);
    if i < 0 {
        s
    } else {
        s.update(
            i,
            StakerStake {
                staker,
                total_stake: sat_sub(s[i].total_stake as int, amount as int) as u64,
            },
        )
    }
}

proof fn lemma_entry_index(s: Seq<StakerStake>, staker: Key, i: int)
    requires
        is_first_entry(s, staker, i),
    ensures
        entry_index(s, staker) == i,
{
    let j = entry_index(s, staker);
    assert(is_first_entry(s, staker, j));
    if j < i {
        assert(s[j].staker != staker);
    }
    if i < j {
        assert(s[i].staker != staker);
    }
}

fn find_staker(v: &Vec<StakerStake>, staker: Key) -> (r: Option<usize>)
    ensures
        r is Some ==> entry_index(v@, staker) == r->Some_0 as int && is_first_entry(
            v@,
            staker,
            r->Some_0 as int,
        ),
        r is None ==> entry_index(v@, staker) == -1,
{
    let mut i: usize = 0;
    while i < v.len()
        invariant
            0 <= i <= v.len(),
            forall|j: int| 0 <= j < i ==> v@[j].staker != staker,
        decreases v.len() - i,
    {
        if v[i].staker == staker {
            proof {
                lemma_entry_index(v@, staker, i as int);
            }
            return Some(i);
        }
        i += 1;
    }
    None
}

/// Adds `amount` to `staker`'s total in the game.
pub fn add_stake_to_game(game: &mut Game, staker: Key, amount: u64) -> (r: Result<(), GameError>)
    ensures
        match stakes_after_add(old(game)@.total_stake_accounts, staker, amount) {
            Ok(s) => r is Ok && final(game)@ == (GameView {
                total_stake_accounts: s,
                ..old(game)@
            }),
            Err(e) => r == Err::<(), GameError>(e) && *final(game) == *old(game),
        },
{
    match find_staker(&game.total_stake_accounts, staker) {
        Some(i) => {
            let current = game.total_stake_accounts[i].total_stake;
            match current.checked_add(amount) {
                Some(total) => {
                    game.total_stake_accounts.set(i, StakerStake { staker, total_stake: total });
                    Ok(())
                },
                None => Err(GameError::Overflow),
            }
        },
        None => {
            game.total_stake_accounts.push(StakerStake { staker, total_stake: amount });
            Ok(())
        },
    }
}

/// Takes `amount` from `staker`'s total in the game, stopping at zero.
pub fn remove_stake_from_game(game: &mut Game, staker: Key, amount: u64)
    ensures
        final(game)@ == (GameView {
            total_stake_accounts: stakes_after_remove(old(game)@.total_stake_accounts, staker, amount),
            ..old(game)@
        }),
{
    match find_staker(&game.total_stake_accounts, staker) {
        Some(i) => {
            let current = game.total_stake_accounts[i].total_stake;
            game.total_stake_accounts.set(
                i,
                StakerStake { staker, total_stake: current.saturating_sub(amount) },
            );
        },
        None => {},
    }
}

// ---------------------------------------------------------------------------
// Deposits
// ---------------------------------------------------------------------------

/// The records after a deposit, and the shares it minted.
pub struct DepositEffect {
    pub agent: Agent,
    pub stake: StakeInfo,
    pub stakes: Seq<StakerStake>,
    pub minted: u128,
}

/// What depositing `amount` into `agent`'s vault, which held
/// `balance_before` tokens, does to `agent`, to `stake` and to the game's
/// per-staker totals `stakes` at `now`: it mints shares, adds them and the
/// amount to the agent and the stake, adds the amount to the staker's total,
/// and locks the stake for an hour. `Overflow` where a total would leave its
/// type.
pub open spec fn deposit_effect(
    agent: Agent,
    stake: StakeInfo,
    stakes: Seq<StakerStake>,
    balance_before: u64,
    amount: u64,
    now: i64,
) -> Result<DepositEffect, GameError> {
    match mint_result(amount, balance_before, agent.total_shares) {
        Err(e) => Err(e),
        Ok(minted) => if agent.total_shares + minted > u128::MAX || agent.staked_balance + amount
            > u128::MAX || stake.amount + amount > u64::MAX || stake.shares + minted > u128::MAX
            || now + STAKE_LOCK_PERIOD > i64::MAX {
            Err(GameError::Overflow)
        } else {
            match stakes_after_add(stakes, stake.staker, amount) {
                Err(e) => Err(e),
                Ok(s) => Ok(
                    DepositEffect {
                        agent: Agent {
                            total_shares: (agent.total_shares + minted) as u128,
                            staked_balance: (agent.staked_balance + amount) as u128,
                            ..agent
                        },
                        stake: StakeInfo {
                            amount: (stake.amount + amount) as u64,
                            shares: (stake.shares + minted) as u128,
                            cooldown_ends_at: (now + STAKE_LOCK_PERIOD) as i64,
                            ..stake
                        },
                        stakes: s,
                        minted,
                    },
                ),
            }
        },
    }
}

fn apply_deposit(
    game: &mut Game,
    agent: &mut Agent,
    stake: &mut StakeInfo,
    balance_before: u64,
    amount: u64,
    now: i64,
) -> (r: Result<u128, GameError>)
    ensures
        match deposit_effect(
            *old(agent),
            *old(stake),
            old(game)@.total_stake_accounts,
            balance_before,
            amount,
            now,
        ) {
            Ok(d) => r == Ok::<u128, GameError>(d.minted) && *final(agent) == d.agent && *final(stake)
                == d.stake && final(game)@ == (GameView { total_stake_accounts: d.stakes, ..old(game)@ }),
            Err(e) => r == Err::<u128, GameError>(e) && *final(agent) == *old(agent) && *final(stake)
                == *old(stake) && *final(game) == *old(game),
        },
{
    let minted = shares_to_mint(amount, balance_before, agent.total_shares)?;
    let total_shares = match agent.total_shares.checked_add(minted) {
        Some(t) => t,
        None => return Err(GameError::Overflow),
    };
    let staked_balance = match agent.staked_balance.checked_add(amount as u128) {
        Some(t) => t,
        None => return Err(GameError::Overflow),
    };
    let stake_amount = match stake.amount.checked_add(amount) {
        Some(t) => t,
        None => return Err(GameError::Overflow),
    };
    let stake_shares = match stake.shares.checked_add(minted) {
        Some(t) => t,
        None => return Err(GameError::Overflow),
    };
    if now > i64::MAX - STAKE_LOCK_PERIOD {
        return Err(GameError::Overflow);
    }
    add_stake_to_game(game, stake.staker, amount)?;
    agent.total_shares = total_shares;
    agent.staked_balance = staked_balance;
    stake.amount = stake_amount;
    stake.shares = stake_shares;
    stake.cooldown_ends_at = now + STAKE_LOCK_PERIOD;
    Ok(minted)
}

/// `InvalidAmount` for a deposit or redemption of nothing.
pub open spec fn amount_error(amount: u64) -> Option<GameError> {
    if amount == 0 {
        Some(GameError::InvalidAmount)
    } else {
        None
    }
}

/// Why `stake` cannot be used by `staker` on `agent`, if it cannot: it must
/// be initialized (`NotEnoughTokens`) and be `staker`'s stake in `agent`'s
/// vault (`Unauthorized`).
pub open spec fn ownership_error(agent: Agent, stake: StakeInfo, staker: Key) -> Option<GameError> {
    if !stake.is_initialized {
        Some(GameError::NotEnoughTokens)
    } else if stake.agent != agent.key || stake.staker != staker {
        Some(GameError::Unauthorized)
    } else {
        None
    }
}

fn check_amount(amount: u64) -> (r: Result<(), GameError>)
    ensures
        r == as_result(amount_error(amount)),
{
    if amount == 0 {
        return Err(GameError::InvalidAmount);
    }
    Ok(())
}

fn check_ownership(agent: &Agent, stake: &StakeInfo, staker: Key) -> (r: Result<(), GameError>)
    ensures
        r == as_result(ownership_error(*agent, *stake, staker)),
{
    if !stake.is_initialized {
        return Err(GameError::NotEnoughTokens);
    }
    if stake.agent != agent.key || stake.staker != staker {
        return Err(GameError::Unauthorized);
    }
    Ok(())
}

/// The stake of `staker` in `agent`'s vault before its first deposit.
pub open spec fn fresh_stake(agent: Agent, staker: Key, now: i64) -> StakeInfo {
    StakeInfo {
        agent: agent.key,
        staker,
        amount: 0,
        shares: 0,
        last_reward_timestamp: now,
        cooldown_ends_at: 0,
        is_initialized: true,
    }
}

/// Opens the stake of `staker` in `agent`'s vault with a first deposit of
/// `deposit_amount` at `now`. `agent_vault` is the vault's token account as
/// it was before the deposit; the caller moves the tokens from the staker to
/// the vault. The stake's reward clock starts at `now`.
pub fn initialize_stake(
    game: &mut Game,
    agent: &mut Agent,
    staker: Key,
    agent_vault: &[u8],
    deposit_amount: u64,
    now: i64,
) -> (r: Result<StakeInfo, GameError>)
    ensures
        ({
            let e = first_error(
                active_error(old(game)),
                first_error(amount_error(deposit_amount), token_error(agent_vault@)),
            );
            let fx = deposit_effect(
                *old(agent),
                fresh_stake(*old(agent), staker, now),
                old(game)@.total_stake_accounts,
                balance_of(agent_vault@),
                deposit_amount,
                now,
            );
            &&& e is Some ==> r == Err::<StakeInfo, GameError>(e.unwrap())
            &&& e is None && fx is Ok ==> r is Ok
            &&& e is None && fx is Err ==> r == Err::<StakeInfo, GameError>(fx->Err_0)
            &&& r is Err ==> *final(agent) == *old(agent) && *final(game) == *old(game)
            &&& r is Ok ==> e is None && fx is Ok && r->Ok_0 == fx->Ok_0.stake && *final(agent)
                == fx->Ok_0.agent && final(game)@ == (GameView {
                total_stake_accounts: fx->Ok_0.stakes,
                ..old(game)@
            })
        }),
{
    game.check_active()?;
    check_amount(deposit_amount)?;
    let balance_before = token_balance(agent_vault)?;
    let mut stake = StakeInfo {
        agent: agent.key,
        staker,
        amount: 0,
        shares: 0,
        last_reward_timestamp: now,
        cooldown_ends_at: 0,
        is_initialized: true,
    };
    apply_deposit(game, agent, &mut stake, balance_before, deposit_amount, now)?;
    Ok(stake)
}

/// Deposits `deposit_amount` more into `staker`'s stake in `agent`'s vault
/// at `now` and returns the shares minted for it. `agent_vault` is the
/// vault's token account as it was before the deposit; the caller moves the
/// tokens from the staker to the vault.
pub fn stake_tokens(
    game: &mut Game,
    agent: &mut Agent,
    stake_info: &mut StakeInfo,
    staker: Key,
    agent_vault: &[u8],
    deposit_amount: u64,
    now: i64,
) -> (r: Result<u128, GameError>)
    ensures
        ({
            let e = first_error(
                active_error(old(game)),
                first_error(
                    amount_error(deposit_amount),
                    first_error(
                        ownership_error(*old(agent), *old(stake_info), staker),
                        token_error(agent_vault@),
                    ),
                ),
            );
            let fx = deposit_effect(
                *old(agent),
                *old(stake_info),
                old(game)@.total_stake_accounts,
                balance_of(agent_vault@),
                deposit_amount,
                now,
            );
            &&& e is Some ==> r == Err::<u128, GameError>(e.unwrap())
            &&& e is None && fx is Ok ==> r is Ok
            &&& e is None && fx is Err ==> r == Err::<u128, GameError>(fx->Err_0)
            &&& r is Err ==> *final(agent) == *old(agent) && *final(stake_info) == *old(stake_info)
                && *final(game) == *old(game)
            &&& r is Ok ==> e is None && fx is Ok && r->Ok_0 == fx->Ok_0.minted && *final(agent)
                == fx->Ok_0.agent && *final(stake_info) == fx->Ok_0.stake && final(game)@ == (GameView {
                total_stake_accounts: fx->Ok_0.stakes,
                ..old(game)@
            })
        }),
{
    game.check_active()?;
    check_amount(deposit_amount)?;
    check_ownership(agent, stake_info, staker)?;
    let balance_before = token_balance(agent_vault)?;
    apply_deposit(game, agent, stake_info, balance_before, deposit_amount, now)
}

// ---------------------------------------------------------------------------
// Withdrawals
// ---------------------------------------------------------------------------

/// The records after a withdrawal, and the tokens it pays out.
pub struct WithdrawEffect {
    pub agent: Agent,
    pub stake: StakeInfo,
    pub stakes: Seq<StakerStake>,
    pub paid: u64,
}

/// What redeeming `shares` of `stake` from `agent`'s vault, which holds
/// `vault_balance` tokens, does: it pays out the shares' value, burns them
/// from the stake and the agent's total, and takes the amount paid off the
/// informational tallies (which stop at zero).
pub open spec fn withdraw_effect(
    agent: Agent,
    stake: StakeInfo,
    stakes: Seq<StakerStake>,
    vault_balance: u64,
    shares: u64,
) -> Result<WithdrawEffect, GameError> {
    match redeem_result(shares, vault_balance, agent.total_shares) {
        Err(e) => Err(e),
        Ok(paid) => Ok(
            WithdrawEffect {
                agent: Agent {
                    total_shares: (agent.total_shares - shares) as u128,
                    staked_balance: sat_sub(agent.staked_balance as int, paid as int) as u128,
                    ..agent
                },
                stake: StakeInfo {
                    amount: sat_sub(stake.amount as int, paid as int) as u64,
                    shares: (stake.shares - shares) as u128,
                    ..stake
                },
                stakes: stakes_after_remove(stakes, stake.staker, paid),
                paid,
            },
        ),
    }
}

/// Why `staker` cannot redeem `shares` of `stake` at `now`, if it cannot.
pub open spec fn withdraw_error(
    game: &Game,
    agent: Agent,
    stake: StakeInfo,
    staker: Key,
    agent_vault: Seq<u8>,
    shares: u64,
    now: i64,
) -> Option<GameError> {
    first_error(
        active_error(game),
        first_error(
            if !stake.is_initialized {
                Some(GameError::NotEnoughTokens)
            } else {
                None
            },
            first_error(
                amount_error(shares),
                first_error(
                    if stake.shares < shares as u128 {
                        Some(GameError::InsufficientShares)
                    } else {
                        None
                    },
                    first_error(
                        ownership_error(agent, stake, staker),
                        first_error(
                            if now < stake.cooldown_ends_at {
                                Some(GameError::CooldownNotOver)
                            } else {
                                None
                            },
                            token_error(agent_vault),
                        ),
                    ),
                ),
            ),
        ),
    )
}

/// Redeems `shares_to_redeem` shares of `staker`'s stake in `agent`'s vault
/// at `now` and returns the tokens they are worth,
/// `floor(shares * vault_balance / total_shares)`, which the caller moves
/// from the vault to the staker. `agent_vault` is the vault's token account.
/// The stake must be out of its lock.
pub fn unstake_tokens(
    game: &mut Game,
    agent: &mut Agent,
    stake_info: &mut StakeInfo,
    staker: Key,
    agent_vault: &[u8],
    shares_to_redeem: u64,
    now: i64,
) -> (r: Result<u64, GameError>)
    ensures
        ({
            let e = withdraw_error(
                old(game),
                *old(agent),
                *old(stake_info),
                staker,
                agent_vault@,
                shares_to_redeem,
                now,
            );
            let fx = withdraw_effect(
                *old(agent),
                *old(stake_info),
                old(game)@.total_stake_accounts,
                balance_of(agent_vault@),
                shares_to_redeem,
            );
            &&& e is Some ==> r == Err::<u64, GameError>(e.unwrap())
            &&& e is None && fx is Ok ==> r is Ok
            &&& e is None && fx is Err ==> r == Err::<u64, GameError>(fx->Err_0)
            &&& r is Err ==> *final(agent) == *old(agent) && *final(stake_info) == *old(stake_info)
                && *final(game) == *old(game)
            &&& r is Ok ==> e is None && fx is Ok && r->Ok_0 == fx->Ok_0.paid && *final(agent)
                == fx->Ok_0.agent && *final(stake_info) == fx->Ok_0.stake && final(game)@ == (GameView {
                total_stake_accounts: fx->Ok_0.stakes,
                ..old(game)@
            })
        }),
{
    game.check_active()?;
    if !stake_info.is_initialized {
        return Err(GameError::NotEnoughTokens);
    }
    check_amount(shares_to_redeem)?;
    if stake_info.shares < shares_to_redeem as u128 {
        return Err(GameError::InsufficientShares);
    }
    check_ownership(agent, stake_info, staker)?;
    if now < stake_info.cooldown_ends_at {
        return Err(GameError::CooldownNotOver);
    }
    let vault_balance = token_balance(agent_vault)?;
    let paid = redeem_amount(shares_to_redeem, vault_balance, agent.total_shares)?;
    agent.total_shares = agent.total_shares - shares_to_redeem as u128;
    agent.staked_balance = agent.staked_balance.saturating_sub(paid as u128);
    stake_info.amount = stake_info.amount.saturating_sub(paid);
    stake_info.shares = stake_info.shares - shares_to_redeem as u128;
    remove_stake_from_game(game, stake_info.staker, paid);
    Ok(paid)
}

/// Locks `staker`'s stake for two hours from `now`, unless it is locked
/// already (`CooldownAlreadyActive`).
pub fn initiate_cooldown(
    game: &Game,
    agent: &Agent,
    stake_info: &mut StakeInfo,
    staker: Key,
    now: i64,
) -> (r: Result<(), GameError>)
    ensures
        ({
            let e = first_error(
                active_error(game),
                first_error(
                    ownership_error(*agent, *old(stake_info), staker),
                    if now < old(stake_info).cooldown_ends_at {
                        Some(GameError::CooldownAlreadyActive)
                    } else if now as int + UNSTAKE_COOLDOWN > i64::MAX {
                        Some(GameError::Overflow)
                    } else {
                        None
                    },
                ),
            );
            &&& r == as_result(e)
            &&& r is Err ==> *final(stake_info) == *old(stake_info)
            &&& r is Ok ==> *final(stake_info) == (StakeInfo {
                cooldown_ends_at: (now + UNSTAKE_COOLDOWN) as i64,
                ..*old(stake_info)
            })
        }),
{
    game.check_active()?;
    check_ownership(agent, stake_info, staker)?;
    if now < stake_info.cooldown_ends_at {
        return Err(GameError::CooldownAlreadyActive);
    }
    if now > i64::MAX - UNSTAKE_COOLDOWN {
        return Err(GameError::Overflow);
    }
    stake_info.cooldown_ends_at = now + UNSTAKE_COOLDOWN;
    Ok(())
}

// ---------------------------------------------------------------------------
// Rewards
// ---------------------------------------------------------------------------

/// Why `staker` cannot claim the rewards of `stake` at `now`, if it cannot:
/// the stake must be out of its lock and a day must have passed since its
/// last claim.
pub open spec fn claim_error(
    game: &Game,
    agent: Agent,
    stake: StakeInfo,
    staker: Key,
    rewards_vault: Seq<u8>,
    now: i64,
) -> Option<GameError> {
    first_error(
        active_error(game),
        first_error(
            ownership_error(agent, stake, staker),
            first_error(
                if now < stake.cooldown_ends_at {
                    Some(GameError::CooldownNotOver)
                } else if !cooldown_over(stake.last_reward_timestamp, REWARD_CLAIM_COOLDOWN, now) {
                    Some(GameError::ClaimCooldown)
                } else {
                    None
                },
                token_error(rewards_vault),
            ),
        ),
    )
}

/// The reward that `stake` has earned at `now` in `agent`'s vault at the
/// game's daily rate.
pub open spec fn earned(game: &Game, agent: Agent, stake: StakeInfo, now: i64) -> Result<
    u128,
    GameError,
> {
    reward_result(
        (now - stake.last_reward_timestamp) as u64,
        game.daily_reward_tokens,
        stake.shares,
        agent.total_shares,
    )
}

/// Claims the rewards of `staker`'s stake in `agent`'s vault at `now` and
/// returns them; the caller moves them from the rewards vault, whose token
/// account is `rewards_vault`, to the staker. The reward is the stake's part
/// of the vault's shares of the game's daily rate over the time since the
/// last claim. A reward of zero is no error: nothing changes and zero is
/// returned. A reward above what the rewards vault holds is refused with
/// `InsufficientRewards`.
pub fn claim_staking_rewards(
    game: &Game,
    agent: &Agent,
    stake_info: &mut StakeInfo,
    staker: Key,
    rewards_vault: &[u8],
    now: i64,
) -> (r: Result<u64, GameError>)
    ensures
        ({
            let e = claim_error(game, *agent, *old(stake_info), staker, rewards_vault@, now);
            let w = earned(game, *agent, *old(stake_info), now);
            &&& e is Some ==> r == Err::<u64, GameError>(e.unwrap())
            &&& e is None && w is Err ==> r == Err::<u64, GameError>(w->Err_0)
            &&& e is None && w is Ok && w->Ok_0 > balance_of(rewards_vault@) ==> r == Err::<
                u64,
                GameError,
            >(GameError::InsufficientRewards)
            &&& e is None && w is Ok && w->Ok_0 <= balance_of(rewards_vault@) ==> r is Ok
            &&& r is Err ==> *final(stake_info) == *old(stake_info)
            &&& r is Ok ==> e is None && w is Ok && r->Ok_0 == w->Ok_0 && w->Ok_0 <= balance_of(
                rewards_vault@,
            )
            &&& r is Ok && r->Ok_0 == 0 ==> *final(stake_info) == *old(stake_info)
            &&& r is Ok && r->Ok_0 > 0 ==> *final(stake_info) == (StakeInfo {
                last_reward_timestamp: now,
                ..*old(stake_info)
            })
        }),
{
    game.check_active()?;
    check_ownership(agent, stake_info, staker)?;
    if now < stake_info.cooldown_ends_at {
        return Err(GameError::CooldownNotOver);
    }
    if !is_cooldown_over(stake_info.last_reward_timestamp, REWARD_CLAIM_COOLDOWN, now) {
        return Err(GameError::ClaimCooldown);
    }
    let available = token_balance(rewards_vault)?;
    let elapsed = (now as i128 - stake_info.last_reward_timestamp as i128) as u64;
    let reward = reward_amount(
        elapsed,
        game.daily_reward_tokens,
        stake_info.shares,
        agent.total_shares,
    )?;
    if reward > available as u128 {
        return Err(GameError::InsufficientRewards);
    }
    if reward == 0 {
        return Ok(0);
    }
    stake_info.last_reward_timestamp = now;
    Ok(reward as u64)
}

/// Sets the game's daily reward to `new_daily_reward`; only its authority
/// may, while it is active.
pub fn update_daily_rewards(game: &mut Game, authority: Key, new_daily_reward: u64) -> (r: Result<
    (),
    GameError,
>)
    ensures
        r == as_result(authority_error(old(game), authority)),
        r is Err ==> *final(game) == *old(game),
        r is Ok ==> final(game)@ == (GameView { daily_reward_tokens: new_daily_reward, ..old(game)@ }),
{
    game.check_authority(authority)?;
    game.daily_reward_tokens = new_daily_reward;
    Ok(())
}

// ---------------------------------------------------------------------------
// Laws of the vault
// ---------------------------------------------------------------------------

/// The shares that the stakes `s` hold together.
pub open spec fn sum_shares(s: Seq<StakeInfo>) -> int
    decreases s.len(),
{
    if s.len() == 0 {
        0
    } else {
        sum_shares(s.drop_last()) + s.last().shares as int
    }
}

/// `stakes` are stakes in `agent`'s vault, and their shares add up to the
/// agent's total.
pub open spec fn shares_conserved(agent: Agent, stakes: Seq<StakeInfo>) -> bool {
    &&& forall|i: int| 0 <= i < stakes.len() ==> #[trigger] stakes[i].agent == agent.key
    &&& sum_shares(stakes) == agent.total_shares
}

proof fn lemma_sum_update(s: Seq<StakeInfo>, k: int, v: StakeInfo)
    requires
        0 <= k < s.len(),
    ensures
        sum_shares(s.update(k, v)) == sum_shares(s) - s[k].shares + v.shares,
    decreases s.len(),
{
    let u = s.update(k, v);
    if k == s.len() - 1 {
        assert(u.drop_last() =~= s.drop_last());
    } else {
        assert(u.drop_last() =~= s.drop_last().update(k, v));
        lemma_sum_update(s.drop_last(), k, v);
    }
}

proof fn lemma_sum_push(s: Seq<StakeInfo>, v: StakeInfo)
    ensures
        sum_shares(s.push(v)) == sum_shares(s) + v.shares,
{
    assert(s.push(v).drop_last() =~= s);
}

/// Share conservation under deposits: when the stakes of an agent hold all
/// of its shares, a deposit into one of them keeps it so.
pub proof fn lemma_deposit_conserves_shares(
    agent: Agent,
    stakes: Seq<StakeInfo>,
    k: int,
    totals: Seq<StakerStake>,
    balance_before: u64,
    amount: u64,
    now: i64,
)
    requires
        shares_conserved(agent, stakes),
        0 <= k < stakes.len(),
        deposit_effect(agent, stakes[k], totals, balance_before, amount, now) is Ok,
    ensures
        ({
            let d = deposit_effect(agent, stakes[k], totals, balance_before, amount, now)->Ok_0;
            shares_conserved(d.agent, stakes.update(k, d.stake))
        }),
{
    let d = deposit_effect(agent, stakes[k], totals, balance_before, amount, now)->Ok_0;
    lemma_sum_update(stakes, k, d.stake);
    let u = stakes.update(k, d.stake);
    assert forall|i: int| 0 <= i < u.len() implies #[trigger] u[i].agent == d.agent.key by {
        if i != k {
            assert(u[i] == stakes[i]);
        }
    }
}

/// Share conservation when a stake is opened: the new stake joins the
/// agent's stakes, which still hold all of its shares.
pub proof fn lemma_opening_conserves_shares(
    agent: Agent,
    stakes: Seq<StakeInfo>,
    staker: Key,
    totals: Seq<StakerStake>,
    balance_before: u64,
    amount: u64,
    now: i64,
)
    requires
        shares_conserved(agent, stakes),
        deposit_effect(agent, fresh_stake(agent, staker, now), totals, balance_before, amount, now) is Ok,
    ensures
        ({
            let d = deposit_effect(
                agent,
                fresh_stake(agent, staker, now),
                totals,
                balance_before,
                amount,
                now,
            )->Ok_0;
            shares_conserved(d.agent, stakes.push(d.stake))
        }),
{
    let d = deposit_effect(agent, fresh_stake(agent, staker, now), totals, balance_before, amount, now)->Ok_0;
    lemma_sum_push(stakes, d.stake);
    let u = stakes.push(d.stake);
    assert forall|i: int| 0 <= i < u.len() implies #[trigger] u[i].agent == d.agent.key by {
        if i < stakes.len() {
            assert(u[i] == stakes[i]);
        }
    }
}

/// Share conservation under withdrawals: when the stakes of an agent hold
/// all of its shares, a withdrawal from one of them keeps it so.
pub proof fn lemma_withdraw_conserves_shares(
    agent: Agent,
    stakes: Seq<StakeInfo>,
    k: int,
    totals: Seq<StakerStake>,
    vault_balance: u64,
    shares: u64,
)
    requires
        shares_conserved(agent, stakes),
        0 <= k < stakes.len(),
        shares as int <= stakes[k].shares,
        withdraw_effect(agent, stakes[k], totals, vault_balance, shares) is Ok,
    ensures
        ({
            let w = withdraw_effect(agent, stakes[k], totals, vault_balance, shares)->Ok_0;
            shares_conserved(w.agent, stakes.update(k, w.stake))
        }),
{
    let w = withdraw_effect(agent, stakes[k], totals, vault_balance, shares)->Ok_0;
    lemma_sum_update(stakes, k, w.stake);
    let u = stakes.update(k, w.stake);
    assert forall|i: int| 0 <= i < u.len() implies #[trigger] u[i].agent == w.agent.key by {
        if i != k {
            assert(u[i] == stakes[i]);
        }
    }
}

/// Deposit and withdrawal round trip: `amount` deposited into an empty
/// vault mints `amount` shares, and redeeming them all right away, from the
/// vault that now holds `amount`, pays back `amount`.
pub proof fn lemma_round_trip(
    agent: Agent,
    stake: StakeInfo,
    totals: Seq<StakerStake>,
    amount: u64,
    now: i64,
)
    requires
        agent.total_shares == 0,
        amount > 0,
        deposit_effect(agent, stake, totals, 0, amount, now) is Ok,
    ensures
        ({
            let d = deposit_effect(agent, stake, totals, 0, amount, now)->Ok_0;
            let w = withdraw_effect(d.agent, d.stake, d.stakes, amount, amount);
            &&& d.minted == amount
            &&& w is Ok
            &&& w->Ok_0.paid == amount
        }),
{
    vstd::arithmetic::div_mod::lemma_div_by_multiple(amount as int, amount as int);
    assert(amount as int * amount as int / amount as int == amount);
}

} // verus!
