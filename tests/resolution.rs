use multiplayer_pvp::advantage::TypeSystem;
use multiplayer_pvp::element::Element;
use multiplayer_pvp::monster::{terminal_outcome, Outcome};
use multiplayer_pvp::resolve::mult_calculate_turn;

fn neutral_table() -> TypeSystem {
    TypeSystem { type_modifier: [[100; 8]; 8] }
}

fn table_with(attacker: usize, defender: usize, hundredths: u16) -> TypeSystem {
    let mut t = neutral_table();
    t.type_modifier[attacker][defender] = hundredths;
    t
}

const EMBER: u8 = 2;
const GROWTH: u8 = 1;

#[test]
fn same_inputs_give_same_result() {
    let t = table_with(2, 1, 150);
    for p_act in 0..4u8 {
        for e_act in 0..4u8 {
            let a = mult_calculate_turn(12, 30, 4, EMBER, p_act, 9, 5, 3, GROWTH, e_act, t);
            let b = mult_calculate_turn(12, 30, 4, EMBER, p_act, 9, 5, 3, GROWTH, e_act, t);
            assert_eq!(a, b);
        }
    }
}

#[test]
fn critical_rate_does_not_change_the_result() {
    let t = table_with(2, 1, 150);
    let a = mult_calculate_turn(12, 0, 4, EMBER, 3, 9, 0, 3, GROWTH, 2, t);
    let b = mult_calculate_turn(12, 255, 4, EMBER, 3, 9, 99, 3, GROWTH, 2, t);
    assert_eq!(a, b);
}

#[test]
fn defend_on_either_side_cancels_all_damage() {
    let t = table_with(2, 1, 200);
    for other in 0..4u8 {
        assert_eq!(mult_calculate_turn(200, 0, 0, EMBER, 1, 150, 0, 0, GROWTH, other, t), (0, 0));
        assert_eq!(mult_calculate_turn(200, 0, 0, EMBER, other, 150, 0, 0, GROWTH, 1, t), (0, 0));
    }
}

#[test]
fn attack_not_above_defence_deals_nothing() {
    let t = table_with(2, 1, 300);
    for act in [0u8, 2, 3] {
        assert_eq!(mult_calculate_turn(5, 0, 0, EMBER, act, 7, 0, 5, GROWTH, 0, t).0, 0);
        assert_eq!(mult_calculate_turn(5, 0, 9, EMBER, 0, 4, 0, 8, GROWTH, act, t), (0, 0));
    }
}

#[test]
fn swapping_roles_swaps_the_damages() {
    let t = table_with(2, 1, 150);
    let t = {
        let mut t = t;
        t.type_modifier[1][2] = 50;
        t
    };
    for a_act in 0..4u8 {
        for b_act in 0..4u8 {
            let ab = mult_calculate_turn(14, 1, 3, EMBER, a_act, 11, 2, 2, GROWTH, b_act, t);
            let ba = mult_calculate_turn(11, 2, 2, GROWTH, b_act, 14, 1, 3, EMBER, a_act, t);
            assert_eq!(ab, (ba.1, ba.0));
        }
    }
}

#[test]
fn elemental_move_truncates_the_scaled_damage() {
    // base 9, times 1.5 is 13.5
    let t = table_with(2, 1, 150);
    assert_eq!(mult_calculate_turn(10, 0, 2, EMBER, 2, 3, 0, 1, GROWTH, 0, t), (13, 1));
    // base 9, times 0.5 is 4.5
    let t = table_with(2, 1, 50);
    assert_eq!(mult_calculate_turn(10, 0, 2, EMBER, 2, 3, 0, 1, GROWTH, 0, t), (4, 1));
}

#[test]
fn special_move_with_advantage_above_one() {
    let t = table_with(2, 1, 150);
    let attack_only = mult_calculate_turn(10, 0, 2, EMBER, 0, 3, 0, 1, GROWTH, 0, t).0;
    assert_eq!(attack_only, 9);
    let special = mult_calculate_turn(10, 0, 2, EMBER, 3, 3, 0, 1, GROWTH, 0, t);
    // 1.5 * 9 = 13.5
    assert_eq!(special.0, (150 * attack_only) / 100);
    assert_eq!(special, (13, 1));
    // 1.5 * (10 - 5) = 7.5
    assert_eq!(mult_calculate_turn(10, 0, 0, EMBER, 3, 0, 0, 5, GROWTH, 0, t), (7, 0));
}

#[test]
fn special_move_with_advantage_below_one() {
    let t = table_with(2, 1, 45);
    let attack_only = mult_calculate_turn(10, 0, 2, EMBER, 0, 3, 0, 1, GROWTH, 2, t).0;
    let special = mult_calculate_turn(10, 0, 2, EMBER, 3, 3, 0, 1, GROWTH, 2, t);
    // 0.45 * 9 = 4.05, and the enemy's elemental move is neutral here
    assert_eq!(special.0, (45 * attack_only) / 100);
    assert_eq!(special, (4, 1));
    // 0.5 * (10 - 3) = 3.5
    let t = table_with(2, 3, 50);
    assert_eq!(mult_calculate_turn(10, 0, 0, EMBER, 3, 0, 0, 3, 3, 0, t), (3, 0));
}

#[test]
fn special_moves_on_both_sides() {
    let mut t = table_with(2, 1, 200);
    t.type_modifier[1][2] = 50;
    // player: base 9 times 2; enemy: base 5 times 0.5
    assert_eq!(mult_calculate_turn(10, 0, 2, EMBER, 3, 7, 0, 1, GROWTH, 3, t), (18, 2));
}

#[test]
fn largest_damage_fits() {
    let t = TypeSystem { type_modifier: [[u16::MAX; 8]; 8] };
    assert_eq!(
        mult_calculate_turn(255, 0, 0, 7, 3, 255, 0, 0, 7, 3, t),
        (167114, 167114)
    );
}

#[test]
fn end_to_end_attack_scenario() {
    let t = neutral_table();
    let host = Element::Ember.index();
    let client = Element::Growth.index();
    let host_view = mult_calculate_turn(10, 0, 2, host, 0, 3, 0, 1, client, 0, t);
    assert_eq!(host_view, (9, 1));
    let client_view = mult_calculate_turn(3, 0, 1, client, 0, 10, 0, 2, host, 0, t);
    assert_eq!(client_view, (1, 9));
}

#[test]
fn terminal_outcomes() {
    assert_eq!(terminal_outcome(0, 0), Outcome::Draw);
    assert_eq!(terminal_outcome(-4, -1), Outcome::Draw);
    assert_eq!(terminal_outcome(0, 7), Outcome::OpponentWins);
    assert_eq!(terminal_outcome(7, 0), Outcome::LocalWins);
    assert_eq!(terminal_outcome(7, -3), Outcome::LocalWins);
    assert_eq!(terminal_outcome(1, 1), Outcome::Continue);
}
