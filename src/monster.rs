use vstd::prelude::*;
use crate::advantage::TypeSystem;
use crate::element::{element_index, Element};
use crate::message::{BattleAction, BattleData, Message, ProtocolError};
use crate::resolve::{max_damage, mult_calculate_turn, turn_result};

verus! {

/// A combatant's stats, as the battle reads and updates them.
#[derive(Clone, Copy, Debug, PartialEq, Eq, Structural)]
pub struct MonsterStats {
    pub typing: Element,
    pub level: u32,
    pub max_health: i64,
    /// May fall below zero before the end of the turn is checked.
    pub health: i64,
    pub atk: u8,
    pub crt: u8,
    /// Reserved for critical hits; not used by the resolution.
    pub crt_dmg: u8,
    pub def: u8,
    /// Reserved for critical hits; not used by the resolution.
    pub crt_res: u8,
    pub moves_known: u8,
}

/// What a resolved turn leaves the battle in.
#[derive(Clone, Copy, Debug, PartialEq, Eq, Structural)]
pub enum Outcome {
    /// Both sides are still standing: the battle goes on.
    Continue,
    /// Both sides fell in the same turn.
    Draw,
    /// The local side is still standing and the opponent fell.
    LocalWins,
    /// The local side fell and the opponent is still standing.
    OpponentWins,
}

/// The end-of-turn verdict for the two healths after the damage.
pub open spec fn outcome_of(local_health: int, opponent_health: int) -> Outcome {
    if local_health <= 0 && opponent_health <= 0 {
        Outcome::Draw
    } else if local_health <= 0 {
        Outcome::OpponentWins
    } else if opponent_health <= 0 {
        Outcome::LocalWins
    } else {
        Outcome::Continue
    }
}

/// The stats an opponent that announced element `e` is given.
pub open spec fn announced_enemy(e: Element) -> MonsterStats {
    MonsterStats {
        typing: e,
        level: 1,
        max_health: 100,
        health: 100,
        atk: 2,
        crt: 25,
        crt_dmg: 2,
        def: 1,
        crt_res: 10,
        moves_known: 2,
    }
}

impl MonsterStats {
    /// The declaration this combatant sends for action `act`.
    pub open spec fn data_spec(self, act: u8) -> BattleData {
        BattleData {
            act,
            atk: self.atk,
            crt: self.crt,
            def: self.def,
            ele: element_index(self.typing),
        }
    }

    /// The declaration this combatant sends for action `act`.
    pub fn battle_data(&self, act: u8) -> (r: BattleData)
        ensures
            r == self.data_spec(act),
            act < 4 ==> r.wf(),
    {
        BattleData { act, atk: self.atk, crt: self.crt, def: self.def, ele: self.typing.index() }
    }

    /// Whether a turn's damage can be taken off this health without leaving
    /// the range of `i64`.
    pub open spec fn can_take_hit(self) -> bool {
        self.health - max_damage() >= i64::MIN
    }

    /// Whether a turn's damage can be taken off this health without leaving
    /// the range of `i64`.
    pub fn fits_turn_damage(&self) -> (r: bool)
        ensures
            r == self.can_take_hit(),
    {
        self.health >= i64::MIN + 167114
    }
}

/// Decides how the battle stands after a turn, from the two healths: both at
/// or below zero is a draw; only the local one is a loss; only the
/// opponent's is a win; otherwise the battle continues.
pub fn terminal_outcome(local_health: i64, opponent_health: i64) -> (r: Outcome)
    ensures
        r == outcome_of(local_health as int, opponent_health as int),
{
    if local_health <= 0 && opponent_health <= 0 {
        Outcome::Draw
    } else if local_health <= 0 {
        Outcome::OpponentWins
    } else if opponent_health <= 0 {
        Outcome::LocalWins
    } else {
        Outcome::Continue
    }
}

/// Builds the opponent's combatant from its element announcement.
pub fn handle_monster_type_event(msg: &Message) -> (r: Result<MonsterStats, ProtocolError>)
    ensures
        r is Ok <==> msg.action == BattleAction::MonsterType && msg.wf(),
        r matches Ok(s) ==> element_index(s.typing) == msg.payload@[0] && s == announced_enemy(
            s.typing,
        ),
        r matches Err(e) ==> e == ProtocolError::MalformedMessage,
{
    let typing = msg.element()?;
    Ok(
        MonsterStats {
            typing,
            level: 1,
            max_health: 100,
            health: 100,
            atk: 2,
            crt: 25,
            crt_dmg: 2,
            def: 1,
            crt_res: 10,
            moves_known: 2,
        },
    )
}

/// Resolves one turn: the local side, with action `local_action`, as the
/// player and the opponent's declaration as the enemy. Each side's health
/// loses the damage dealt to it, and the verdict on the new healths is
/// returned.
pub fn resolve_turn(
    local_action: u8,
    opponent: BattleData,
    local: &mut MonsterStats,
    enemy: &mut MonsterStats,
    type_system: TypeSystem,
) -> (r: Outcome)
    requires
        opponent.ele < 8,
        old(local).can_take_hit(),
        old(enemy).can_take_hit(),
    ensures
        ({
            let d = turn_result(
                old(local).atk,
                old(local).def,
                element_index(old(local).typing),
                local_action,
                opponent.atk,
                opponent.def,
                opponent.ele,
                opponent.act,
                type_system,
            );
            &&& final(local).health == old(local).health - d.1
            &&& final(enemy).health == old(enemy).health - d.0
        }),
        *final(local) == (MonsterStats { health: final(local).health, ..*old(local) }),
        *final(enemy) == (MonsterStats { health: final(enemy).health, ..*old(enemy) }),
        r == outcome_of(final(local).health as int, final(enemy).health as int),
{
    let damage = mult_calculate_turn(
        local.atk,
        local.crt,
        local.def,
        local.typing.index(),
        local_action,
        opponent.atk,
        opponent.crt,
        opponent.def,
        opponent.ele,
        opponent.act,
        type_system,
    );
    local.health = local.health - damage.1 as i64;
    enemy.health = enemy.health - damage.0 as i64;
    terminal_outcome(local.health, enemy.health)
}

} // verus!
