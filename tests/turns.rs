use multiplayer_pvp::advantage::TypeSystem;
use multiplayer_pvp::element::Element;
use multiplayer_pvp::message::{encode_message, BattleAction, BattleData, Message, ProtocolError};
use multiplayer_pvp::monster::{resolve_turn, MonsterStats, Outcome};
use multiplayer_pvp::session::{
    action_for_key, continue_draining, init_client_turnflag, init_host_turnflag, BattleSession,
    PacketEvent, Role, TurnFlag,
};

fn monster(typing: Element, atk: u8, def: u8, health: i64) -> MonsterStats {
    MonsterStats {
        typing,
        level: 1,
        max_health: 100,
        health,
        atk,
        crt: 25,
        crt_dmg: 2,
        def,
        crt_res: 10,
        moves_known: 2,
    }
}

fn neutral_table() -> TypeSystem {
    TypeSystem { type_modifier: [[100; 8]; 8] }
}

#[test]
fn initial_tokens() {
    assert_eq!(init_host_turnflag(), TurnFlag(true));
    assert_eq!(init_client_turnflag(), TurnFlag(false));
    assert_eq!(BattleSession::new(Role::Host).turn, TurnFlag(true));
    assert_eq!(BattleSession::new(Role::Client).turn, TurnFlag(false));
}

#[test]
fn keys_select_actions() {
    assert_eq!(action_for_key('A'), Some(0));
    assert_eq!(action_for_key('D'), Some(1));
    assert_eq!(action_for_key('E'), Some(2));
    assert_eq!(action_for_key('S'), Some(3));
    assert_eq!(action_for_key('Q'), None);
}

#[test]
fn turn_token_passes_from_host_to_client() {
    let mut host = BattleSession::new(Role::Host);
    let mut client = BattleSession::new(Role::Client);
    let host_mon = monster(Element::Ember, 10, 2, 100);

    let msg = host.host_action_handler(0, &host_mon).unwrap();
    assert_eq!(host.turn, TurnFlag(false));
    assert_eq!(msg.action, BattleAction::StartTurn);
    assert_eq!(msg.payload, vec![0, 10, 25, 2, 2]);
    assert_eq!(host.cached_action, 0);

    // the host cannot act twice in a row
    assert_eq!(host.host_action_handler(1, &host_mon), None);
    assert_eq!(host.cached_action, 0);

    let ev = client.handle_packet(&encode_message(&msg));
    assert_eq!(ev, Ok(PacketEvent::TurnStarted));
    assert_eq!(client.turn, TurnFlag(true));
    assert_eq!(client.cached_data, BattleData { act: 0, atk: 10, crt: 25, def: 2, ele: 2 });
}

#[test]
fn waiting_side_cannot_act() {
    let mut client = BattleSession::new(Role::Client);
    let before = client;
    assert_eq!(client.client_action_handler(0, &monster(Element::Growth, 3, 1, 100)), None);
    assert_eq!(client, before);
    let mut host = BattleSession::new(Role::Host);
    let before = host;
    assert_eq!(host.client_action_handler(0, &monster(Element::Growth, 3, 1, 100)), None);
    assert_eq!(host, before);
}

#[test]
fn roles_reject_the_other_sides_turn_message() {
    let d = BattleData { act: 0, atk: 1, crt: 2, def: 3, ele: 4 };
    let mut host = BattleSession::new(Role::Host);
    let before = host;
    let r = host.handle_packet(&encode_message(&Message::start_turn(d)));
    assert_eq!(r, Err(ProtocolError::UnexpectedMessage));
    assert_eq!(host, before);
    let mut client = BattleSession::new(Role::Client);
    let before = client;
    let r = client.handle_packet(&encode_message(&Message::finish_turn(d)));
    assert_eq!(r, Err(ProtocolError::UnexpectedMessage));
    assert_eq!(client, before);
}

#[test]
fn announcement_is_handed_on() {
    let mut client = BattleSession::new(Role::Client);
    let before = client;
    let m = Message::monster_type(Element::Robot);
    assert_eq!(client.handle_packet(&encode_message(&m)), Ok(PacketEvent::MonsterTypeAnnounced(m)));
    assert_eq!(client, before);
}

#[test]
fn draining_stops_only_on_an_unrecognized_tag() {
    assert!(continue_draining(&Ok(PacketEvent::TurnStarted)));
    assert!(continue_draining(&Err(ProtocolError::MalformedMessage)));
    assert!(continue_draining(&Err(ProtocolError::UnexpectedMessage)));
    assert!(!continue_draining(&Err(ProtocolError::UnrecognizedAction)));
}

#[test]
fn full_turn_end_to_end() {
    let t = neutral_table();
    let mut host = BattleSession::new(Role::Host);
    let mut client = BattleSession::new(Role::Client);
    let mut host_mon = monster(Element::Ember, 10, 2, 100);
    let mut host_view_of_client = monster(Element::Growth, 2, 1, 100);
    let mut client_mon = monster(Element::Growth, 3, 1, 100);
    let mut client_view_of_host = monster(Element::Ember, 2, 1, 100);

    let start = host.host_action_handler(0, &host_mon).unwrap();
    assert_eq!(client.handle_packet(&encode_message(&start)), Ok(PacketEvent::TurnStarted));

    let (finish, host_data) = client.client_action_handler(0, &client_mon).unwrap();
    assert_eq!(client.turn, TurnFlag(false));
    assert_eq!(finish.action, BattleAction::FinishTurn);
    let client_outcome =
        client.client_end_turn_handler(host_data, &mut client_mon, &mut client_view_of_host, t);
    assert_eq!(client_outcome, Outcome::Continue);
    assert_eq!(client_mon.health, 91);
    assert_eq!(client_view_of_host.health, 99);

    let ev = host.handle_packet(&encode_message(&finish)).unwrap();
    assert_eq!(host.turn, TurnFlag(true));
    let data = match ev {
        PacketEvent::HostActionReceived(d) => d,
        other => panic!("unexpected event {:?}", other),
    };
    assert_eq!(data, BattleData { act: 0, atk: 3, crt: 25, def: 1, ele: 1 });
    let host_outcome = host.host_end_turn_handler(data, &mut host_mon, &mut host_view_of_client, t);
    assert_eq!(host_outcome, Outcome::Continue);
    assert_eq!(host_mon.health, 99);
    assert_eq!(host_view_of_client.health, 91);
}

#[test]
fn resolution_reports_the_winner() {
    let t = neutral_table();
    let opp = BattleData { act: 0, atk: 3, crt: 0, def: 1, ele: 1 };
    let mut local = monster(Element::Ember, 10, 2, 5);
    let mut enemy = monster(Element::Growth, 3, 1, 9);
    assert_eq!(resolve_turn(0, opp, &mut local, &mut enemy, t), Outcome::LocalWins);
    assert_eq!((local.health, enemy.health), (4, 0));

    let mut local = monster(Element::Ember, 10, 2, 1);
    let mut enemy = monster(Element::Growth, 3, 1, 50);
    assert_eq!(resolve_turn(0, opp, &mut local, &mut enemy, t), Outcome::OpponentWins);
    assert_eq!((local.health, enemy.health), (0, 41));

    let mut local = monster(Element::Ember, 10, 2, 1);
    let mut enemy = monster(Element::Growth, 3, 1, 9);
    assert_eq!(resolve_turn(0, opp, &mut local, &mut enemy, t), Outcome::Draw);

    let mut local = monster(Element::Ember, 10, 2, 1);
    let mut enemy = monster(Element::Growth, 3, 1, 9);
    assert_eq!(resolve_turn(1, opp, &mut local, &mut enemy, t), Outcome::Continue);
    assert_eq!((local.health, enemy.health), (1, 9));
}

#[test]
fn validity_checks() {
    assert!(BattleData { act: 3, atk: 0, crt: 0, def: 0, ele: 7 }.is_valid());
    assert!(!BattleData { act: 4, atk: 0, crt: 0, def: 0, ele: 7 }.is_valid());
    assert!(!BattleData { act: 0, atk: 0, crt: 0, def: 0, ele: 8 }.is_valid());
    assert!(monster(Element::Scav, 1, 1, 100).fits_turn_damage());
    assert!(monster(Element::Scav, 1, 1, i64::MIN + 167114).fits_turn_damage());
    assert!(!monster(Element::Scav, 1, 1, i64::MIN + 167113).fits_turn_damage());
}
