use vstd::prelude::*;
use crate::advantage::{apply_modifier, TypeSystem};

verus! {

/// Action id: a plain attack.
pub const ATTACK: u8 = 0;

/// Action id: defend; nullifies all damage of the turn, on both sides.
pub const DEFEND: u8 = 1;

/// Action id: an elemental move; the attack scaled by the type advantage.
pub const ELEMENTAL: u8 = 2;

/// Action id: the compound special move; an attack-only turn whose damage
/// then gets the elemental multiplier.
pub const SPECIAL: u8 = 3;

/// Damage of an attack before any modifier: what the attack exceeds the
/// defence by, and never below zero.
pub open spec fn base_damage(atk: u8, def: u8) -> int {
    if atk > def {
        atk - def
    } else {
        0
    }
}

/// Damage one side deals to the other when neither defends.
pub open spec fn outgoing_damage(
    atk: u8,
    atk_type: u8,
    action: u8,
    def: u8,
    def_type: u8,
    table: TypeSystem,
) -> int {
    let base = base_damage(atk, def);
    let m = table.modifier(atk_type as int, def_type as int);
    if action == ELEMENTAL {
        apply_modifier(m, base)
    } else if action == SPECIAL {
        apply_modifier(m, base)
    } else {
        base
    }
}

/// The outcome of one combined turn: (damage to the enemy, damage to the player).
pub open spec fn turn_result(
    player_atk: u8,
    player_def: u8,
    player_type: u8,
    player_action: u8,
    enemy_atk: u8,
    enemy_def: u8,
    enemy_type: u8,
    enemy_action: u8,
    table: TypeSystem,
) -> (int, int) {
    if player_action == DEFEND || enemy_action == DEFEND {
        (0, 0)
    } else {
        (
            outgoing_damage(player_atk, player_type, player_action, enemy_def, enemy_type, table),
            outgoing_damage(enemy_atk, enemy_type, enemy_action, player_def, player_type, table),
        )
    }
}

/// Largest damage one side can deal in a turn: a 255 attack against no
/// defence under the largest multiplier.
pub open spec fn max_damage() -> int {
    (65535int * 255) / 100
}

proof fn lemma_outgoing_bounds(atk: u8, atk_type: u8, action: u8, def: u8, def_type: u8, table: TypeSystem)
    ensures
        0 <= outgoing_damage(atk, atk_type, action, def, def_type, table) <= max_damage(),
{
    let base = base_damage(atk, def);
    let m = table.modifier(atk_type as int, def_type as int) as int;
    assert(0 <= m * base <= 65535 * 255) by (nonlinear_arith)
        requires
            0 <= m <= 65535,
            0 <= base <= 255,
    ;
    assert((m * base) / 100 <= (65535 * 255) / 100) by (nonlinear_arith)
        requires
            0 <= m * base <= 65535 * 255,
    ;
}

/// A defend by either side makes the whole turn deal no damage, whatever
/// the other side does.
pub proof fn lemma_defend_dominates(
    player_atk: u8,
    player_def: u8,
    player_type: u8,
    player_action: u8,
    enemy_atk: u8,
    enemy_def: u8,
    enemy_type: u8,
    enemy_action: u8,
    table: TypeSystem,
)
    requires
        player_action == DEFEND || enemy_action == DEFEND,
    ensures
        turn_result(
            player_atk,
            player_def,
            player_type,
            player_action,
            enemy_atk,
            enemy_def,
            enemy_type,
            enemy_action,
            table,
        ) == (0int, 0int),
{
}

/// Damage is never negative, and an attack that does not exceed the
/// defence contributes nothing, whatever the action and the multiplier.
pub proof fn lemma_no_negative_damage(
    atk: u8,
    atk_type: u8,
    action: u8,
    def: u8,
    def_type: u8,
    table: TypeSystem,
)
    ensures
        base_damage(atk, def) >= 0,
        outgoing_damage(atk, atk_type, action, def, def_type, table) >= 0,
        atk <= def ==> base_damage(atk, def) == 0,
        atk <= def ==> outgoing_damage(atk, atk_type, action, def, def_type, table) == 0,
{
    lemma_outgoing_bounds(atk, atk_type, action, def, def_type, table);
}

/// Swapping the roles of the two sides swaps the two damages: the host's and
/// the client's computations of one turn agree.
pub proof fn lemma_role_swap(
    a_atk: u8,
    a_def: u8,
    a_type: u8,
    a_action: u8,
    b_atk: u8,
    b_def: u8,
    b_type: u8,
    b_action: u8,
    table: TypeSystem,
)
    ensures
        turn_result(a_atk, a_def, a_type, a_action, b_atk, b_def, b_type, b_action, table).0
            == turn_result(b_atk, b_def, b_type, b_action, a_atk, a_def, a_type, a_action, table).1,
        turn_result(a_atk, a_def, a_type, a_action, b_atk, b_def, b_type, b_action, table).1
            == turn_result(b_atk, b_def, b_type, b_action, a_atk, a_def, a_type, a_action, table).0,
{
}

/// A special move deals the damage of the same turn with its action forced
/// to a plain attack (the base damage), multiplied by the attacker's type
/// advantage and truncated toward zero; the opponent's action is left as it
/// is, and a defend by the opponent leaves nothing to compose.
pub proof fn lemma_special_composition(
    player_atk: u8,
    player_def: u8,
    player_type: u8,
    enemy_atk: u8,
    enemy_def: u8,
    enemy_type: u8,
    enemy_action: u8,
    table: TypeSystem,
)
    requires
        enemy_action != DEFEND,
    ensures
        turn_result(
            player_atk,
            player_def,
            player_type,
            SPECIAL,
            enemy_atk,
            enemy_def,
            enemy_type,
            enemy_action,
            table,
        ).0 == apply_modifier(
            table.modifier(player_type as int, enemy_type as int),
            turn_result(
                player_atk,
                player_def,
                player_type,
                ATTACK,
                enemy_atk,
                enemy_def,
                enemy_type,
                enemy_action,
                table,
            ).0,
        ),
        turn_result(
            player_atk,
            player_def,
            player_type,
            ATTACK,
            enemy_atk,
            enemy_def,
            enemy_type,
            enemy_action,
            table,
        ).0 == base_damage(player_atk, enemy_def),
{
}

/// Computes both directions of damage of one combined turn.
///
/// Action ids: 0 attack, 1 defend, 2 elemental, 3 special; any other id
/// deals a plain attack. A defend on either side makes the turn deal no
/// damage at all. Otherwise each side deals what its attack exceeds the
/// other's defence by, at least zero; an elemental move multiplies that by
/// the attacker's type advantage, and a special move takes the damage of an
/// attack-only turn (computed by one recursive call with its own action
/// forced to attack, and a special move of the other side seen as an
/// attack, so the recursion stops there) and applies the multiplier to it.
/// Products are truncated toward zero. The critical-rate values are accepted but do not take part.
pub fn mult_calculate_turn(
    player_atk: u8,
    player_crt: u8,
    player_def: u8,
    player_type: u8,
    player_action: u8,
    enemy_atk: u8,
    enemy_crt: u8,
    enemy_def: u8,
    enemy_type: u8,
    enemy_action: u8,
    type_system: TypeSystem,
) -> (r: (isize, isize))
    requires
        player_type < 8,
        enemy_type < 8,
    ensures
        (r.0 as int, r.1 as int) == turn_result(
            player_atk,
            player_def,
            player_type,
            player_action,
            enemy_atk,
            enemy_def,
            enemy_type,
            enemy_action,
            type_system,
        ),
        0 <= r.0 <= max_damage(),
        0 <= r.1 <= max_damage(),
    decreases
        (if player_action == SPECIAL { 1int } else { 0int }) + (if enemy_action == SPECIAL {
            1int
        } else {
            0int
        }),
{
    if player_action == DEFEND || enemy_action == DEFEND {
        return (0, 0);
    }
    proof {
        lemma_outgoing_bounds(player_atk, player_type, player_action, enemy_def, enemy_type, type_system);
        lemma_outgoing_bounds(enemy_atk, enemy_type, enemy_action, player_def, player_type, type_system);
    }
    let mut to_enemy: u64 = if player_atk <= enemy_def {
        0
    } else {
        (player_atk - enemy_def) as u64
    };
    let mut to_player: u64 = if enemy_atk <= player_def {
        0
    } else {
        (enemy_atk - player_def) as u64
    };
    if player_action == ELEMENTAL {
        let m = type_system.modifier_of(player_type, enemy_type) as u64;
        assert(m * to_enemy <= 65535 * 255) by (nonlinear_arith)
            requires
                m <= 65535,
                to_enemy <= 255,
        ;
        to_enemy = m * to_enemy / 100;
    } else if player_action == SPECIAL {
        // an attack first
        let attack = mult_calculate_turn(
            player_atk,
            player_crt,
            player_def,
            player_type,
            ATTACK,
            enemy_atk,
            enemy_crt,
            enemy_def,
            enemy_type,
            if enemy_action == SPECIAL {
                ATTACK
            } else {
                enemy_action
            },
            type_system,
        );
        to_enemy = attack.0 as u64;
        // then the elemental follow-up
        let m = type_system.modifier_of(player_type, enemy_type) as u64;
        assert(m * to_enemy <= 65535 * 255) by (nonlinear_arith)
            requires
                m <= 65535,
                to_enemy <= 255,
        ;
        to_enemy = m * to_enemy / 100;
    }
    if enemy_action == ELEMENTAL {
        let m = type_system.modifier_of(enemy_type, player_type) as u64;
        assert(m * to_player <= 65535 * 255) by (nonlinear_arith)
            requires
                m <= 65535,
                to_player <= 255,
        ;
        to_player = m * to_player / 100;
    } else if enemy_action == SPECIAL {
        // an attack first
        let attack = mult_calculate_turn(
            player_atk,
            player_crt,
            player_def,
            player_type,
            if player_action == SPECIAL {
                ATTACK
            } else {
                player_action
            },
            enemy_atk,
            enemy_crt,
            enemy_def,
            enemy_type,
            ATTACK,
            type_system,
        );
        to_player = attack.1 as u64;
        // then the elemental follow-up
        let m = type_system.modifier_of(enemy_type, player_type) as u64;
        assert(m * to_player <= 65535 * 255) by (nonlinear_arith)
            requires
                m <= 65535,
                to_player <= 255,
        ;
        to_player = m * to_player / 100;
    }
    (to_enemy as isize, to_player as isize)
}

} // verus!
