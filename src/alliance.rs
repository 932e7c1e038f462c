//! Forming and breaking alliances between pairs of agents.
//!
//! The game's alliance records are the truth; each agent's `alliance_with`
//! mirrors its record and is updated together with it. A pair keeps one
//! record for good: breaking the alliance deactivates it and allying again
//! reactivates it.

use vstd::prelude::*;
use crate::agent::{cooldown_over, Agent};
use crate::constants::{ALLIANCE_COOLDOWN, MAX_ALLIANCES};
use crate::error::{first_error, GameError};
use crate::key::Key;
use crate::game::{active_error, Alliance, Game, GameView};

verus! {

/// `a` is a record of the pair `x`, `y`, in either order.
pub open spec fn is_pair(a: Alliance, x: Key, y: Key) -> bool {
    (a.agent1 == x && a.agent2 == y) || (a.agent1 == y && a.agent2 == x)
}

/// `a` is a record of the pair `x`, `y`; an active one if `active_only`.
pub open spec fn pair_record(a: Alliance, x: Key, y: Key, active_only: bool) -> bool {
    is_pair(a, x, y) && (a.is_active || !active_only)
}

/// `i` is the first index of `s` that holds a `pair_record`.
pub open spec fn is_first_record(s: Seq<Alliance>, x: Key, y: Key, active_only: bool, i: int) -> bool {
    &&& 0 <= i < s.len()
    &&& pair_record(s[i], x, y, active_only)
    &&& forall|j: int| 0 <= j < i ==> !pair_record(s[j], x, y, active_only)
}

/// The first index of `s` that holds a `pair_record`, or `-1`.
pub open spec fn first_record(s: Seq<Alliance>, x: Key, y: Key, active_only: bool) -> int {
    if exists|i: int| is_first_record(s, x, y, active_only, i) {
        choose|i: int| is_first_record(s, x, y, active_only, i)
    } else {
        -1
    }
}

proof fn lemma_first_record(s: Seq<Alliance>, x: Key, y: Key, active_only: bool, i: int)
    requires
        is_first_record(s, x, y, active_only, i),
    ensures
        first_record(s, x, y, active_only) == i,
{
    let j = first_record(s, x, y, active_only);
    assert(is_first_record(s, x, y, active_only, j));
    if j < i {
        assert(!pair_record(s[j], x, y, active_only));
    }
    if i < j {
        assert(!pair_record(s[i], x, y, active_only));
    }
}

/// The index of the first record of the pair `x`, `y` in `s`, or `-1`.
pub open spec fn pair_index(s: Seq<Alliance>, x: Key, y: Key) -> int {
    first_record(s, x, y, false)
}

/// The index of the first active record of the pair `x`, `y`, or `-1`.
pub open spec fn active_pair_index(s: Seq<Alliance>, x: Key, y: Key) -> int {
    first_record(s, x, y, true)
}

fn find_pair(v: &Vec<Alliance>, x: Key, y: Key, active_only: bool) -> (r: Option<usize>)
    ensures
        r is Some ==> r->Some_0 < v@.len() && first_record(v@, x, y, active_only) == r->Some_0 as int,
        r is None ==> first_record(v@, x, y, active_only) == -1,
{
    let mut i: usize = 0;
    while i < v.len()
        invariant
            0 <= i <= v.len(),
            forall|j: int| 0 <= j < i ==> !pair_record(v@[j], x, y, active_only),
        decreases v.len() - i,
    {
        let a = v[i];
        let pair = (a.agent1 == x && a.agent2 == y) || (a.agent1 == y && a.agent2 == x);
        if pair && (a.is_active || !active_only) {
            proof {
                lemma_first_record(v@, x, y, active_only, i as int);
            }
            return Some(i);
        }
        i += 1;
    }
    None
}

/// Why `initiator` (controlled by `authority`) cannot ally with `target` at
/// `now`, if it cannot.
pub open spec fn form_error(
    game: &Game,
    authority: Key,
    initiator: Agent,
    target: Agent,
    now: i64,
) -> Option<GameError> {
    let s = game.alliances@;
    let i = pair_index(s, initiator.key, target.key);
    first_error(
        active_error(game),
        if authority != initiator.authority {
            Some(GameError::Unauthorized)
        } else if !initiator.is_alive || !target.is_alive {
            Some(GameError::AgentNotAlive)
        } else if !cooldown_over(initiator.last_alliance, ALLIANCE_COOLDOWN, now) {
            Some(GameError::AllianceCooldown)
        } else if initiator.key == target.key {
            Some(GameError::InvalidAlliancePartner)
        } else if initiator.alliance_with is Some || target.alliance_with is Some {
            Some(GameError::AllianceAlreadyExists)
        } else if i >= 0 && s[i].is_active {
            Some(GameError::AllianceAlreadyExists)
        } else if i < 0 && s.len() >= MAX_ALLIANCES {
            Some(GameError::MaxAllianceLimitReached)
        } else {
            None
        },
    )
}

/// The alliance records once `x` and `y` ally at `now`: their record is
/// reactivated, or a new one is appended.
pub open spec fn alliances_after_form(s: Seq<Alliance>, x: Key, y: Key, now: i64) -> Seq<Alliance> {
    let i = pair_index(s, x, y);
    if i >= 0 {
        s.update(i, Alliance { is_active: true, formed_at: now, ..s[i] })
    } else {
        s.push(Alliance { agent1: x, agent2: y, formed_at: now, is_active: true })
    }
}

/// `initiator`, controlled by `authority`, allies with `target` at `now`.
/// Both must be alive and unallied, distinct, and the initiator must not
/// have formed an alliance in the last four hours.
pub fn form_alliance(
    game: &mut Game,
    authority: Key,
    initiator: &mut Agent,
    target: &mut Agent,
    now: i64,
) -> (r: Result<(), GameError>)
    ensures
        ({
            let e = form_error(old(game), authority, *old(initiator), *old(target), now);
            let (ik, tk) = (old(initiator).key, old(target).key);
            &&& e is Some ==> r == Err::<(), GameError>(e.unwrap()) && *final(game) == *old(game)
                && *final(initiator) == *old(initiator) && *final(target) == *old(target)
            &&& e is None ==> r is Ok && final(game)@ == (GameView {
                alliances: alliances_after_form(old(game)@.alliances, ik, tk, now),
                ..old(game)@
            }) && *final(initiator) == (Agent {
                alliance_with: Some(tk),
                alliance_timestamp: now,
                last_alliance: now,
                ..*old(initiator)
            }) && *final(target) == (Agent {
                alliance_with: Some(ik),
                alliance_timestamp: now,
                ..*old(target)
            })
        }),
{
    game.check_active()?;
    if authority != initiator.authority {
        return Err(GameError::Unauthorized);
    }
    if !initiator.is_alive || !target.is_alive {
        return Err(GameError::AgentNotAlive);
    }
    initiator.validate_alliance(now)?;
    if initiator.key == target.key {
        return Err(GameError::InvalidAlliancePartner);
    }
    if initiator.alliance_with.is_some() || target.alliance_with.is_some() {
        return Err(GameError::AllianceAlreadyExists);
    }
    let (ik, tk) = (initiator.key, target.key);
    match find_pair(&game.alliances, ik, tk, false) {
        Some(i) => {
            let existing = game.alliances[i];
            if existing.is_active {
                return Err(GameError::AllianceAlreadyExists);
            }
            game.alliances.set(i, Alliance { is_active: true, formed_at: now, ..existing });
        },
        None => {
            if game.alliances.len() >= MAX_ALLIANCES {
                return Err(GameError::MaxAllianceLimitReached);
            }
            game.alliances.push(Alliance { agent1: ik, agent2: tk, formed_at: now, is_active: true });
        },
    }
    initiator.alliance_with = Some(tk);
    initiator.alliance_timestamp = now;
    initiator.last_alliance = now;
    target.alliance_with = Some(ik);
    target.alliance_timestamp = now;
    Ok(())
}

/// Why `initiator` (controlled by `authority`) cannot break its alliance
/// with `target`, if it cannot.
pub open spec fn break_error(game: &Game, authority: Key, initiator: Agent, target: Agent) -> Option<
    GameError,
> {
    first_error(
        active_error(game),
        if authority != initiator.authority {
            Some(GameError::Unauthorized)
        } else if initiator.alliance_with != Some(target.key) || active_pair_index(
            game.alliances@,
            initiator.key,
            target.key,
        ) < 0 {
            Some(GameError::NoAllianceToBreak)
        } else {
            None
        },
    )
}

/// `initiator`, controlled by `authority`, breaks its alliance with
/// `target`: both agents are left unallied and the pair's active record is
/// deactivated (and kept).
pub fn break_alliance(
    game: &mut Game,
    authority: Key,
    initiator: &mut Agent,
    target: &mut Agent,
) -> (r: Result<(), GameError>)
    ensures
        ({
            let e = break_error(old(game), authority, *old(initiator), *old(target));
            let s = old(game)@.alliances;
            let i = active_pair_index(s, old(initiator).key, old(target).key);
            &&& e is Some ==> r == Err::<(), GameError>(e.unwrap()) && *final(game) == *old(game)
                && *final(initiator) == *old(initiator) && *final(target) == *old(target)
            &&& e is None ==> r is Ok && final(game)@ == (GameView {
                alliances: s.update(i, Alliance { is_active: false, ..s[i] }),
                ..old(game)@
            }) && *final(initiator) == (Agent {
                alliance_with: None,
                alliance_timestamp: 0,
                ..*old(initiator)
            }) && *final(target) == (Agent {
                alliance_with: None,
                alliance_timestamp: 0,
                ..*old(target)
            })
        }),
{
    game.check_active()?;
    if authority != initiator.authority {
        return Err(GameError::Unauthorized);
    }
    match initiator.alliance_with {
        Some(k) => if k != target.key {
            return Err(GameError::NoAllianceToBreak);
        },
        None => return Err(GameError::NoAllianceToBreak),
    }
    match find_pair(&game.alliances, initiator.key, target.key, true) {
        Some(i) => {
            let existing = game.alliances[i];
            game.alliances.set(i, Alliance { is_active: false, ..existing });
        },
        None => return Err(GameError::NoAllianceToBreak),
    }
    initiator.alliance_with = None;
    initiator.alliance_timestamp = 0;
    target.alliance_with = None;
    target.alliance_timestamp = 0;
    Ok(())
}

/// No two records of `s` are of the same pair.
pub open spec fn pairs_unique(s: Seq<Alliance>) -> bool {
    forall|i: int, j: int|
        #![trigger s[i], s[j]]
        0 <= i < j < s.len() ==> !is_pair(s[j], s[i].agent1, s[i].agent2)
}

proof fn lemma_first_record_exists(s: Seq<Alliance>, x: Key, y: Key, active_only: bool, j: int)
    requires
        0 <= j < s.len(),
        pair_record(s[j], x, y, active_only),
    ensures
        first_record(s, x, y, active_only) >= 0,
    decreases j,
{
    if exists|k: int| 0 <= k < j && pair_record(s[k], x, y, active_only) {
        let k = choose|k: int| 0 <= k < j && pair_record(s[k], x, y, active_only);
        lemma_first_record_exists(s, x, y, active_only, k);
    } else {
        assert(is_first_record(s, x, y, active_only, j));
    }
}

/// Forming an alliance keeps the records at one per pair: an existing
/// record of the pair is reused, and a new one is added only where the pair
/// has none.
pub proof fn lemma_form_keeps_pairs_unique(s: Seq<Alliance>, x: Key, y: Key, now: i64)
    requires
        pairs_unique(s),
    ensures
        pairs_unique(alliances_after_form(s, x, y, now)),
{
    let i = pair_index(s, x, y);
    let t = alliances_after_form(s, x, y, now);
    if i >= 0 {
        assert(is_first_record(s, x, y, false, i));
        assert forall|a: int, b: int| #![trigger t[a], t[b]] 0 <= a < b < t.len() implies !is_pair(
            t[b],
            t[a].agent1,
            t[a].agent2,
        ) by {
            assert(t[a].agent1 == s[a].agent1 && t[a].agent2 == s[a].agent2);
            assert(t[b].agent1 == s[b].agent1 && t[b].agent2 == s[b].agent2);
            assert(!is_pair(s[b], s[a].agent1, s[a].agent2));
        }
    } else {
        assert forall|j: int| 0 <= j < s.len() implies !pair_record(s[j], x, y, false) by {
            if pair_record(s[j], x, y, false) {
                lemma_first_record_exists(s, x, y, false, j);
            }
        }
        assert forall|a: int, b: int| #![trigger t[a], t[b]] 0 <= a < b < t.len() implies !is_pair(
            t[b],
            t[a].agent1,
            t[a].agent2,
        ) by {
            if b < s.len() {
                assert(t[a] == s[a] && t[b] == s[b]);
                assert(!is_pair(s[b], s[a].agent1, s[a].agent2));
            } else {
                assert(t[a] == s[a]);
                assert(!pair_record(s[a], x, y, false));
            }
        }
    }
}

/// Breaking an alliance keeps the records at one per pair: it only
/// deactivates one.
pub proof fn lemma_break_keeps_pairs_unique(s: Seq<Alliance>, x: Key, y: Key)
    requires
        pairs_unique(s),
        active_pair_index(s, x, y) >= 0,
    ensures
        ({
            let i = active_pair_index(s, x, y);
            pairs_unique(s.update(i, Alliance { is_active: false, ..s[i] }))
        }),
{
    let i = active_pair_index(s, x, y);
    assert(is_first_record(s, x, y, true, i));
    let t = s.update(i, Alliance { is_active: false, ..s[i] });
    assert forall|a: int, b: int| #![trigger t[a], t[b]] 0 <= a < b < t.len() implies !is_pair(
        t[b],
        t[a].agent1,
        t[a].agent2,
    ) by {
        assert(t[a].agent1 == s[a].agent1 && t[a].agent2 == s[a].agent2);
        assert(t[b].agent1 == s[b].agent1 && t[b].agent2 == s[b].agent2);
        assert(!is_pair(s[b], s[a].agent1, s[a].agent2));
    }
}

} // verus!
