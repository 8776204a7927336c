use vstd::prelude::*;
use crate::advantage::TypeSystem;
use crate::message::{
    battle_data_of, decode_message, decode_spec, BattleAction, BattleData, Message,
    ProtocolError,
};
use crate::monster::{outcome_of, resolve_turn, MonsterStats, Outcome};
use crate::resolve::turn_result;
use crate::element::element_index;

verus! {

/// The two fixed roles of a battle.
#[derive(Clone, Copy, Debug, PartialEq, Eq, Structural)]
pub enum Role {
    /// Opens every turn; acts first.
    Host,
    /// Answers every turn.
    Client,
}

/// Whether the local side may act now.
#[derive(Clone, Copy, Debug, PartialEq, Eq, Structural)]
pub struct TurnFlag(pub bool);

/// What a received packet asks of the surrounding game.
#[derive(Clone, Debug, PartialEq, Eq)]
pub enum PacketEvent {
    /// The opponent announced its element; the message carries it.
    MonsterTypeAnnounced(Message),
    /// The host opened a turn: the client may now act.
    TurnStarted,
    /// The client closed a turn with this declaration: the host resolves it.
    HostActionReceived(BattleData),
}

/// One peer's state of the turn protocol.
#[derive(Clone, Copy, Debug, PartialEq, Eq, Structural)]
pub struct BattleSession {
    pub role: Role,
    /// The turn token: true while the local side may declare an action.
    pub turn: TurnFlag,
    /// The opponent's last declaration (on the host, its own last one).
    pub cached_data: BattleData,
    /// The action the local side last declared.
    pub cached_action: u8,
}

/// The token a role starts with: the host acts first.
pub open spec fn initial_turn(role: Role) -> bool {
    role == Role::Host
}

/// The host's first turn token.
pub fn init_host_turnflag() -> (r: TurnFlag)
    ensures
        r.0 == initial_turn(Role::Host),
{
    TurnFlag(true)
}

/// The client's first turn token.
pub fn init_client_turnflag() -> (r: TurnFlag)
    ensures
        r.0 == initial_turn(Role::Client),
{
    TurnFlag(false)
}

/// The action a key selects: `A` attacks, `D` defends, `E` uses an
/// elemental move and `S` the special move; any other key selects nothing.
pub fn action_for_key(key: char) -> (r: Option<u8>)
    ensures
        r == (if key == 'A' {
            Some(crate::resolve::ATTACK)
        } else if key == 'D' {
            Some(crate::resolve::DEFEND)
        } else if key == 'E' {
            Some(crate::resolve::ELEMENTAL)
        } else if key == 'S' {
            Some(crate::resolve::SPECIAL)
        } else {
            None::<u8>
        }),
        r matches Some(a) ==> a < 4,
{
    if key == 'A' {
        Some(crate::resolve::ATTACK)
    } else if key == 'D' {
        Some(crate::resolve::DEFEND)
    } else if key == 'E' {
        Some(crate::resolve::ELEMENTAL)
    } else if key == 'S' {
        Some(crate::resolve::SPECIAL)
    } else {
        None
    }
}

/// Whether the receive loop goes on draining after handling one packet:
/// a malformed or unexpected packet is dropped alone, while a tag that names
/// no kind of message ends this tick's draining.
pub fn continue_draining(handled: &Result<PacketEvent, ProtocolError>) -> (r: bool)
    ensures
        r <==> !(handled matches Err(e) && e == ProtocolError::UnrecognizedAction),
{
    match handled {
        Err(ProtocolError::UnrecognizedAction) => false,
        _ => true,
    }
}

impl BattleSession {
    /// A session at the start of a battle: the host holds the token, the
    /// client waits, and nothing is cached yet.
    pub fn new(role: Role) -> (r: BattleSession)
        ensures
            r.role == role,
            r.turn.0 == initial_turn(role),
            r.cached_data == (BattleData { act: 0, atk: 0, crt: 0, def: 0, ele: 0 }),
            r.cached_action == 0,
    {
        let turn = match role {
            Role::Host => init_host_turnflag(),
            Role::Client => init_client_turnflag(),
        };
        BattleSession {
            role,
            turn,
            cached_data: BattleData { act: 0, atk: 0, crt: 0, def: 0, ele: 0 },
            cached_action: 0,
        }
    }

    /// The host declares action `action` with its combatant `local`. While
    /// it holds the token, it gives the token up, caches the action and its
    /// own declaration, and returns the `StartTurn` message to send; at any
    /// other time, or on a client, nothing changes and `None` is returned.
    pub fn host_action_handler(&mut self, action: u8, local: &MonsterStats) -> (r: Option<Message>)
        requires
            action < 4,
        ensures
            (old(self).role == Role::Host && old(self).turn.0) ==> {
                &&& r matches Some(m) && m.action == BattleAction::StartTurn && m.payload@
                    == local.data_spec(action).payload_spec() && m.wf()
                &&& *final(self) == (BattleSession {
                    turn: TurnFlag(false),
                    cached_data: local.data_spec(action),
                    cached_action: action,
                    ..*old(self)
                })
            },
            !(old(self).role == Role::Host && old(self).turn.0) ==> r is None && *final(self)
                == *old(self),
    {
        if self.role != Role::Host || !self.turn.0 {
            return None;
        }
        let data = local.battle_data(action);
        let msg = Message::start_turn(data);
        self.turn = TurnFlag(false);
        self.cached_data = data;
        self.cached_action = action;
        Some(msg)
    }

    /// The client declares action `action` with its combatant `local`.
    /// While it holds the token, it gives the token up, caches the action,
    /// and returns the `FinishTurn` message to send together with the host's
    /// cached declaration, which it can resolve the turn against at once; at
    /// any other time, or on a host, nothing changes and `None` is returned.
    pub fn client_action_handler(&mut self, action: u8, local: &MonsterStats) -> (r: Option<
        (Message, BattleData),
    >)
        requires
            action < 4,
        ensures
            (old(self).role == Role::Client && old(self).turn.0) ==> {
                &&& r matches Some(v) && v.0.action == BattleAction::FinishTurn && v.0.payload@
                    == local.data_spec(action).payload_spec() && v.0.wf() && v.1
                    == old(self).cached_data
                &&& *final(self) == (BattleSession {
                    turn: TurnFlag(false),
                    cached_action: action,
                    ..*old(self)
                })
            },
            !(old(self).role == Role::Client && old(self).turn.0) ==> r is None && *final(self)
                == *old(self),
    {
        if self.role != Role::Client || !self.turn.0 {
            return None;
        }
        let data = local.battle_data(action);
        let msg = Message::finish_turn(data);
        self.turn = TurnFlag(false);
        self.cached_action = action;
        Some((msg, self.cached_data))
    }

    /// Handles one received datagram. An element announcement is handed on
    /// unchanged. A `StartTurn` on the client, or a `FinishTurn` on the
    /// host, gives the local side the token; the client caches the host's
    /// declaration, the host hands the client's on for resolution. A turn
    /// message the local role does not take gives `UnexpectedMessage`, and
    /// bytes that do not decode give the decoder's error; both leave the
    /// session as it was.
    pub fn handle_packet(&mut self, bytes: &[u8]) -> (r: Result<PacketEvent, ProtocolError>)
        ensures
            decode_spec(bytes@) matches Err(e) ==> r == Err::<PacketEvent, ProtocolError>(e)
                && *final(self) == *old(self),
            decode_spec(bytes@) matches Ok(v) ==> {
                let (a, p) = v;
                if a == BattleAction::MonsterType {
                    &&& r matches Ok(PacketEvent::MonsterTypeAnnounced(m))
                    &&& m.action == a && m.payload@ == p && m.wf()
                    &&& *final(self) == *old(self)
                } else if a == BattleAction::StartTurn && old(self).role == Role::Client {
                    &&& r == Ok::<PacketEvent, ProtocolError>(PacketEvent::TurnStarted)
                    &&& *final(self) == (BattleSession {
                        turn: TurnFlag(true),
                        cached_data: battle_data_of(p),
                        ..*old(self)
                    })
                } else if a == BattleAction::FinishTurn && old(self).role == Role::Host {
                    &&& r == Ok::<PacketEvent, ProtocolError>(
                        PacketEvent::HostActionReceived(battle_data_of(p)),
                    )
                    &&& *final(self) == (BattleSession { turn: TurnFlag(true), ..*old(self) })
                } else {
                    &&& r == Err::<PacketEvent, ProtocolError>(ProtocolError::UnexpectedMessage)
                    &&& *final(self) == *old(self)
                }
            },
            r matches Ok(PacketEvent::HostActionReceived(d)) ==> d.wf(),
    {
        let msg = decode_message(bytes)?;
        match msg.action {
            BattleAction::MonsterType => Ok(PacketEvent::MonsterTypeAnnounced(msg)),
            BattleAction::StartTurn => {
                if self.role != Role::Client {
                    return Err(ProtocolError::UnexpectedMessage);
                }
                let data = msg.battle_data()?;
                self.turn = TurnFlag(true);
                self.cached_data = data;
                Ok(PacketEvent::TurnStarted)
            },
            BattleAction::FinishTurn => {
                if self.role != Role::Host {
                    return Err(ProtocolError::UnexpectedMessage);
                }
                let data = msg.battle_data()?;
                self.turn = TurnFlag(true);
                Ok(PacketEvent::HostActionReceived(data))
            },
        }
    }

    /// The host resolves a turn on receiving the client's declaration
    /// `data`: its cached action against the client's, with the damage taken
    /// off both combatants.
    pub fn host_end_turn_handler(
        &self,
        data: BattleData,
        local: &mut MonsterStats,
        enemy: &mut MonsterStats,
        type_system: TypeSystem,
    ) -> (r: Outcome)
        requires
            data.wf(),
            old(local).can_take_hit(),
            old(enemy).can_take_hit(),
        ensures
            ({
                let d = turn_result(
                    old(local).atk,
                    old(local).def,
                    element_index(old(local).typing),
                    self.cached_action,
                    data.atk,
                    data.def,
                    data.ele,
                    data.act,
                    type_system,
                );
                &&& final(local).health == old(local).health - d.1
                &&& final(enemy).health == old(enemy).health - d.0
            }),
            *final(local) == (MonsterStats { health: final(local).health, ..*old(local) }),
            *final(enemy) == (MonsterStats { health: final(enemy).health, ..*old(enemy) }),
            r == outcome_of(final(local).health as int, final(enemy).health as int),
    {
        resolve_turn(self.cached_action, data, local, enemy, type_system)
    }

    /// The client resolves a turn once it has declared its own action: its
    /// cached action against the host's declaration `data` (the one its
    /// action handler returned), with the damage taken off both combatants.
    pub fn client_end_turn_handler(
        &self,
        data: BattleData,
        local: &mut MonsterStats,
        enemy: &mut MonsterStats,
        type_system: TypeSystem,
    ) -> (r: Outcome)
        requires
            data.wf(),
            old(local).can_take_hit(),
            old(enemy).can_take_hit(),
        ensures
            ({
                let d = turn_result(
                    old(local).atk,
                    old(local).def,
                    element_index(old(local).typing),
                    self.cached_action,
                    data.atk,
                    data.def,
                    data.ele,
                    data.act,
                    type_system,
                );
                &&& final(local).health == old(local).health - d.1
                &&& final(enemy).health == old(enemy).health - d.0
            }),
            *final(local) == (MonsterStats { health: final(local).health, ..*old(local) }),
            *final(enemy) == (MonsterStats { health: final(enemy).health, ..*old(enemy) }),
            r == outcome_of(final(local).health as int, final(enemy).health as int),
    {
        resolve_turn(self.cached_action, data, local, enemy, type_system)
    }
}

} // verus!
