use vstd::prelude::*;
use crate::element::{convert_num_to_element, element_index, element_of_index, Element};
use crate::wire::{
    bincode_deserialize, bincode_serialize, frame, frame_payload, frame_tag, is_frame,
    lemma_frame_round_trip, pow256,
};

verus! {

/// The three kinds of message of the battle protocol.
#[derive(Clone, Copy, Debug, PartialEq, Eq, Structural)]
pub enum BattleAction {
    /// Announces the sender's element, before the first turn.
    MonsterType,
    /// The host's declaration, opening a turn.
    StartTurn,
    /// The client's declaration, closing a turn.
    FinishTurn,
}

/// Why a received packet was dropped.
#[derive(Clone, Copy, Debug, PartialEq, Eq, Structural)]
pub enum ProtocolError {
    /// The bytes are not a frame, or the payload does not fit the kind of
    /// message the frame announces.
    MalformedMessage,
    /// The frame's tag names no kind of message.
    UnrecognizedAction,
    /// A well-formed message that the receiving role does not accept.
    UnexpectedMessage,
}

/// One side's declaration of a turn: its action id and the stats that the
/// resolution needs.
#[derive(Clone, Copy, Debug, Default, PartialEq, Eq, Structural)]
pub struct BattleData {
    pub act: u8,
    pub atk: u8,
    pub crt: u8,
    pub def: u8,
    pub ele: u8,
}

/// A message of the protocol: its kind and its payload bytes.
#[derive(Clone, Debug, PartialEq, Eq)]
pub struct Message {
    pub action: BattleAction,
    pub payload: Vec<u8>,
}

/// Number of bytes of a turn declaration's payload.
pub const TURN_PAYLOAD_LEN: usize = 5;

/// The wire tag of each kind of message.
pub open spec fn action_tag(a: BattleAction) -> u32 {
    match a {
        BattleAction::MonsterType => 0,
        BattleAction::StartTurn => 1,
        BattleAction::FinishTurn => 2,
    }
}

/// The kind of message a wire tag names, if any.
pub open spec fn action_of_tag(t: nat) -> Option<BattleAction> {
    if t == 0 {
        Some(BattleAction::MonsterType)
    } else if t == 1 {
        Some(BattleAction::StartTurn)
    } else if t == 2 {
        Some(BattleAction::FinishTurn)
    } else {
        None
    }
}

impl BattleData {
    /// Action id in `0..4` and element index in `0..8`.
    pub open spec fn wf(self) -> bool {
        self.act < 4 && self.ele < 8
    }

    /// Whether the action id is in `0..4` and the element index in `0..8`.
    pub fn is_valid(&self) -> (r: bool)
        ensures
            r == self.wf(),
    {
        self.act < 4 && self.ele < 8
    }

    /// The five payload bytes of this declaration:
    /// `[action, attack, critical rate, defence, element]`.
    pub open spec fn payload_spec(self) -> Seq<u8> {
        seq![self.act, self.atk, self.crt, self.def, self.ele]
    }
}

/// The declaration that five payload bytes stand for.
pub open spec fn battle_data_of(p: Seq<u8>) -> BattleData {
    BattleData { act: p[0], atk: p[1], crt: p[2], def: p[3], ele: p[4] }
}

/// Whether `p` is a valid payload for a message of kind `a`: one element
/// index for an announcement; a five-byte declaration with an action id in
/// `0..4` and an element index in `0..8` for a turn.
pub open spec fn payload_fits(a: BattleAction, p: Seq<u8>) -> bool {
    match a {
        BattleAction::MonsterType => p.len() == 1 && p[0] < 8,
        _ => p.len() == TURN_PAYLOAD_LEN && p[0] < 4 && p[4] < 8,
    }
}

/// The bytes a message is sent as.
pub open spec fn encode_spec(a: BattleAction, p: Seq<u8>) -> Seq<u8> {
    frame(action_tag(a), p)
}

/// What received bytes decode to: the message's kind and payload, or why
/// they are dropped.
pub open spec fn decode_spec(b: Seq<u8>) -> Result<(BattleAction, Seq<u8>), ProtocolError> {
    if !is_frame(b) {
        Err(ProtocolError::MalformedMessage)
    } else {
        match action_of_tag(frame_tag(b)) {
            None => Err(ProtocolError::UnrecognizedAction),
            Some(a) => if payload_fits(a, frame_payload(b)) {
                Ok((a, frame_payload(b)))
            } else {
                Err(ProtocolError::MalformedMessage)
            },
        }
    }
}

impl Message {
    /// Its payload fits its kind.
    pub open spec fn wf(&self) -> bool {
        payload_fits(self.action, self.payload@)
    }

    /// The announcement of an element: its index in one byte.
    pub fn monster_type(e: Element) -> (r: Message)
        ensures
            r.action == BattleAction::MonsterType,
            r.payload@ == seq![element_index(e)],
            r.wf(),
    {
        let mut payload: Vec<u8> = Vec::new();
        payload.push(e.index());
        Message { action: BattleAction::MonsterType, payload }
    }

    /// The host's turn declaration.
    pub fn start_turn(data: BattleData) -> (r: Message)
        ensures
            r.action == BattleAction::StartTurn,
            r.payload@ == data.payload_spec(),
            data.wf() ==> r.wf(),
    {
        Message { action: BattleAction::StartTurn, payload: battle_payload(&data) }
    }

    /// The client's turn declaration.
    pub fn finish_turn(data: BattleData) -> (r: Message)
        ensures
            r.action == BattleAction::FinishTurn,
            r.payload@ == data.payload_spec(),
            data.wf() ==> r.wf(),
    {
        Message { action: BattleAction::FinishTurn, payload: battle_payload(&data) }
    }

    /// The element an announcement carries.
    pub fn element(&self) -> (r: Result<Element, ProtocolError>)
        ensures
            r is Ok <==> self.action == BattleAction::MonsterType && self.wf(),
            r matches Ok(e) ==> element_index(e) == self.payload@[0],
            r matches Err(e) ==> e == ProtocolError::MalformedMessage,
    {
        if self.action != BattleAction::MonsterType || self.payload.len() != 1 {
            return Err(ProtocolError::MalformedMessage);
        }
        match convert_num_to_element(self.payload[0] as usize) {
            Some(e) => Ok(e),
            None => Err(ProtocolError::MalformedMessage),
        }
    }

    /// The declaration a turn message carries.
    pub fn battle_data(&self) -> (r: Result<BattleData, ProtocolError>)
        ensures
            r is Ok <==> self.action != BattleAction::MonsterType && self.wf(),
            r matches Ok(d) ==> d == battle_data_of(self.payload@) && d.wf(),
            r matches Err(e) ==> e == ProtocolError::MalformedMessage,
    {
        if self.action == BattleAction::MonsterType || self.payload.len() != TURN_PAYLOAD_LEN
            || self.payload[0] >= 4 || self.payload[4] >= 8 {
            return Err(ProtocolError::MalformedMessage);
        }
        Ok(
            BattleData {
                act: self.payload[0],
                atk: self.payload[1],
                crt: self.payload[2],
                def: self.payload[3],
                ele: self.payload[4],
            },
        )
    }
}

/// The five payload bytes of a turn declaration.
pub fn battle_payload(data: &BattleData) -> (r: Vec<u8>)
    ensures
        r@ == data.payload_spec(),
{
    let mut payload: Vec<u8> = Vec::new();
    payload.push(data.act);
    payload.push(data.atk);
    payload.push(data.crt);
    payload.push(data.def);
    payload.push(data.ele);
    assert(payload@ =~= data.payload_spec());
    payload
}

fn tag_of(a: BattleAction) -> (r: u32)
    ensures
        r == action_tag(a),
{
    match a {
        BattleAction::MonsterType => 0,
        BattleAction::StartTurn => 1,
        BattleAction::FinishTurn => 2,
    }
}

/// Serialises a message into the bytes of one datagram: a bincode frame of
/// its tag and payload.
pub fn encode_message(msg: &Message) -> (r: Vec<u8>)
    ensures
        r@ == encode_spec(msg.action, msg.payload@),
{
    match bincode_serialize(tag_of(msg.action), &msg.payload) {
        Ok(bytes) => bytes,
        Err(_) => Vec::new(),
    }
}

/// Deserialises the bytes of one datagram; bytes that are not a frame, or
/// whose payload does not fit the announced kind, give `MalformedMessage`,
/// and a tag that names no kind gives `UnrecognizedAction`.
pub fn decode_message(bytes: &[u8]) -> (r: Result<Message, ProtocolError>)
    ensures
        r is Ok <==> decode_spec(bytes@) is Ok,
        r matches Ok(m) ==> decode_spec(bytes@) == Ok::<(BattleAction, Seq<u8>), ProtocolError>((m.action, m.payload@)),
        r matches Ok(m) ==> m.wf(),
        r matches Err(e) ==> decode_spec(bytes@) == Err::<(BattleAction, Seq<u8>), ProtocolError>(e),
{
    let (tag, payload) = match bincode_deserialize(bytes) {
        Ok(v) => v,
        Err(_) => return Err(ProtocolError::MalformedMessage),
    };
    let action = if tag == 0 {
        BattleAction::MonsterType
    } else if tag == 1 {
        BattleAction::StartTurn
    } else if tag == 2 {
        BattleAction::FinishTurn
    } else {
        return Err(ProtocolError::UnrecognizedAction);
    };
    let fits = match action {
        BattleAction::MonsterType => payload.len() == 1 && payload[0] < 8,
        _ => payload.len() == TURN_PAYLOAD_LEN && payload[0] < 4 && payload[4] < 8,
    };
    if fits {
        Ok(Message { action, payload })
    } else {
        Err(ProtocolError::MalformedMessage)
    }
}

/// Decoding the encoding of a message of any kind whose payload fits that
/// kind gives the same message back.
pub proof fn lemma_codec_round_trip(a: BattleAction, p: Seq<u8>)
    requires
        payload_fits(a, p),
    ensures
        decode_spec(encode_spec(a, p)) == Ok::<(BattleAction, Seq<u8>), ProtocolError>((a, p)),
{
    reveal_with_fuel(pow256, 9);
    lemma_frame_round_trip(action_tag(a), p);
}

/// A turn declaration read back from the payload it is sent as is the
/// declaration itself.
pub proof fn lemma_battle_data_round_trip(d: BattleData)
    ensures
        battle_data_of(d.payload_spec()) == d,
        d.wf() ==> payload_fits(BattleAction::StartTurn, d.payload_spec()),
        d.wf() ==> payload_fits(BattleAction::FinishTurn, d.payload_spec()),
{
}

/// An announced element is read back from its one-byte payload.
pub proof fn lemma_element_round_trip(e: Element)
    ensures
        payload_fits(BattleAction::MonsterType, seq![element_index(e)]),
        element_of_index(seq![element_index(e)][0] as int) == Some(e),
{
}

/// A turn declaration sent in either kind of turn message decodes to a
/// message of that kind whose payload reads back as the same declaration.
pub proof fn lemma_turn_message_round_trip(d: BattleData)
    requires
        d.wf(),
    ensures
        decode_spec(encode_spec(BattleAction::StartTurn, d.payload_spec())) == Ok::<
            (BattleAction, Seq<u8>),
            ProtocolError,
        >((BattleAction::StartTurn, d.payload_spec())),
        decode_spec(encode_spec(BattleAction::FinishTurn, d.payload_spec())) == Ok::<
            (BattleAction, Seq<u8>),
            ProtocolError,
        >((BattleAction::FinishTurn, d.payload_spec())),
        battle_data_of(d.payload_spec()) == d,
{
    let p = d.payload_spec();
    lemma_battle_data_round_trip(d);
    assert(decode_spec(encode_spec(BattleAction::StartTurn, p)) == Ok::<
        (BattleAction, Seq<u8>),
        ProtocolError,
    >((BattleAction::StartTurn, p))) by {
        lemma_codec_round_trip(BattleAction::StartTurn, p);
    }
    assert(decode_spec(encode_spec(BattleAction::FinishTurn, p)) == Ok::<
        (BattleAction, Seq<u8>),
        ProtocolError,
    >((BattleAction::FinishTurn, p))) by {
        lemma_codec_round_trip(BattleAction::FinishTurn, p);
    }
}

} // verus!
