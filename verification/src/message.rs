//! The messages exchanged with the players, and the parts they are made of.
//!
//! Messages that hold text or lists are specified through their views, in
//! which a `String` is its sequence of characters and a `Vec` a sequence.

use vstd::prelude::*;
use crate::card::{CardPublic, CardPublicFull};
use crate::model::PlayerId;

verus! {

/// Identifies a room; the 128 bits of the identifier in the room's address.
pub type RoomId = u128;

/// How a room is played.
#[derive(Clone, Copy, Debug, PartialEq, Eq, Structural)]
pub enum GameMode {
    SuddenDeath,
    ZobboBattle { rounds: u8 },
}

impl Default for GameMode {
    /// A battle over three rounds.
    fn default() -> (r: Self)
        ensures
            r == (GameMode::ZobboBattle { rounds: 3 }),
    {
        GameMode::ZobboBattle { rounds: 3 }
    }
}

/// What anybody may know of a slot: whether it is empty, and how often it
/// has changed.
#[derive(Clone, Copy, Debug, PartialEq, Eq, Structural)]
pub struct SlotPublic {
    pub empty: bool,
    pub version: u64,
}

/// The public side of a player's own seat.
#[derive(Clone, Debug, PartialEq, Eq)]
pub struct SeatPublic {
    pub slots: Vec<SlotPublic>,
}

/// The public side of the opponent's seat.
#[derive(Clone, Debug, PartialEq, Eq)]
pub struct OpponentPublic {
    pub slots: Vec<SlotPublic>,
}

/// The stage of a turn without the card it carries.
#[derive(Clone, Copy, Debug, PartialEq, Eq, Structural)]
pub enum StageName {
    AwaitDraw,
    Holding,
    Power,
}

impl StageName {
    /// The name of the stage on the wire.
    pub fn as_str(&self) -> (r: &'static str)
        ensures
            r@ == match *self {
                StageName::AwaitDraw => "await_draw"@,
                StageName::Holding => "holding"@,
                StageName::Power => "power"@,
            },
    {
        match self {
            StageName::AwaitDraw => "await_draw",
            StageName::Holding => "holding",
            StageName::Power => "power",
        }
    }
}

/// Whose card a peek shows.
#[derive(Clone, Copy, Debug, PartialEq, Eq, Structural)]
pub enum PeekTarget {
    /// A card of the player who looks.
    Own,
    /// A card of the other player.
    Opponent,
}

impl PeekTarget {
    /// The name of the target on the wire.
    pub fn as_str(&self) -> (r: &'static str)
        ensures
            r@ == match *self {
                PeekTarget::Own => "self"@,
                PeekTarget::Opponent => "opponent"@,
            },
    {
        match self {
            PeekTarget::Own => "self",
            PeekTarget::Opponent => "opponent",
        }
    }
}

/// The state of a match as one player may see it: no card of either seat,
/// only which slots are occupied and how often each has changed.
#[derive(Clone, Debug, PartialEq, Eq)]
pub struct GameUpdate {
    pub you: SeatPublic,
    pub opponent: OpponentPublic,
    pub active: PlayerId,
    pub stage: StageName,
    pub discard_top: Option<CardPublic>,
    pub deck_count: u32,
    pub discard_count: u32,
    pub zobbo_remaining: Option<u8>,
}

/// View of a [`GameUpdate`].
pub struct UpdateView {
    pub you: Seq<SlotPublic>,
    pub opponent: Seq<SlotPublic>,
    pub active: PlayerId,
    pub stage: StageName,
    pub discard_top: Option<CardPublic>,
    pub deck_count: u32,
    pub discard_count: u32,
    pub zobbo_remaining: Option<u8>,
}

impl View for GameUpdate {
    type V = UpdateView;

    open spec fn view(&self) -> UpdateView {
        UpdateView {
            you: self.you.slots@,
            opponent: self.opponent.slots@,
            active: self.active,
            stage: self.stage,
            discard_top: self.discard_top,
            deck_count: self.deck_count,
            discard_count: self.discard_count,
            zobbo_remaining: self.zobbo_remaining,
        }
    }
}

/// A player as the lobby shows them.
#[derive(Clone, Debug, PartialEq, Eq)]
pub struct LobbyPlayer {
    pub id: PlayerId,
    pub name: String,
    pub connected: bool,
    pub ready: bool,
}

/// View of a [`LobbyPlayer`], and of a player's record in a room.
pub struct PlayerView {
    pub id: PlayerId,
    pub name: Seq<char>,
    pub connected: bool,
    pub ready: bool,
}

impl View for LobbyPlayer {
    type V = PlayerView;

    open spec fn view(&self) -> PlayerView {
        PlayerView { id: self.id, name: self.name@, connected: self.connected, ready: self.ready }
    }
}

/// The lobby of a room: who has joined, who is connected, who is ready.
#[derive(Clone, Debug, PartialEq, Eq)]
pub struct LobbyState {
    pub room_id: RoomId,
    pub mode: GameMode,
    pub players: Vec<LobbyPlayer>,
}

/// View of a [`LobbyState`].
pub struct LobbyView {
    pub room_id: RoomId,
    pub mode: GameMode,
    pub players: Seq<PlayerView>,
}

impl View for LobbyState {
    type V = LobbyView;

    open spec fn view(&self) -> LobbyView {
        LobbyView {
            room_id: self.room_id,
            mode: self.mode,
            players: Seq::new(self.players@.len(), |i: int| self.players@[i]@),
        }
    }
}

/// A message from the server to one player.
#[derive(Clone, Debug, PartialEq, Eq)]
pub enum ServerToClient {
    Welcome { player_id: PlayerId, lobby: LobbyState },
    LobbyUpdate { lobby: LobbyState },
    GameStart { starting_player: PlayerId, mode: GameMode },
    GameUpdate { update: GameUpdate },
    DrawnCard { card: CardPublic },
    PeekResult { target: PeekTarget, index: usize, card: CardPublic },
    GameOver {
        your_score: u32,
        opp_score: u32,
        you_cards: Vec<CardPublicFull>,
        opp_cards: Vec<CardPublicFull>,
        winner: Option<PlayerId>,
    },
    Error { message: String },
    Pong,
}

/// View of a [`ServerToClient`].
pub enum MsgView {
    Welcome { player_id: PlayerId, lobby: LobbyView },
    LobbyUpdate { lobby: LobbyView },
    GameStart { starting_player: PlayerId, mode: GameMode },
    GameUpdate { update: UpdateView },
    DrawnCard { card: CardPublic },
    PeekResult { target: PeekTarget, index: usize, card: CardPublic },
    GameOver {
        your_score: u32,
        opp_score: u32,
        you_cards: Seq<CardPublicFull>,
        opp_cards: Seq<CardPublicFull>,
        winner: Option<PlayerId>,
    },
    Error { message: Seq<char> },
    Pong,
}

impl View for ServerToClient {
    type V = MsgView;

    open spec fn view(&self) -> MsgView {
        match *self {
            ServerToClient::Welcome { player_id, lobby } => MsgView::Welcome {
                player_id,
                lobby: lobby@,
            },
            ServerToClient::LobbyUpdate { lobby } => MsgView::LobbyUpdate { lobby: lobby@ },
            ServerToClient::GameStart { starting_player, mode } => MsgView::GameStart {
                starting_player,
                mode,
            },
            ServerToClient::GameUpdate { update } => MsgView::GameUpdate { update: update@ },
            ServerToClient::DrawnCard { card } => MsgView::DrawnCard { card },
            ServerToClient::PeekResult { target, index, card } => MsgView::PeekResult {
                target,
                index,
                card,
            },
            ServerToClient::GameOver {
                your_score,
                opp_score,
                you_cards,
                opp_cards,
                winner,
            } => MsgView::GameOver {
                your_score,
                opp_score,
                you_cards: you_cards@,
                opp_cards: opp_cards@,
                winner,
            },
            ServerToClient::Error { message } => MsgView::Error { message: message@ },
            ServerToClient::Pong => MsgView::Pong,
        }
    }
}

/// A message from a player to the server.
#[derive(Clone, Copy, Debug, PartialEq, Eq, Structural)]
pub enum ClientToServer {
    Ping,
    Ready,
    DrawDeck,
    DrawDiscard,
    SwapWithHand { index: usize },
    DiscardDrawn,
    MatchTop { index: usize },
    CallZobbo,
    PowerCheckOwn { index: usize },
    PowerCheckOpp { index: usize },
    PowerSwapWithDeck { index: usize },
    PowerSwapWithOpp { my_index: usize, opp_index: usize },
    PowerOppSwapWithDeck { opp_index: usize },
    EndTurn,
}

/// A message on its way to a player.
#[derive(Clone, Debug, PartialEq, Eq)]
pub struct Outbound {
    pub to: PlayerId,
    pub msg: ServerToClient,
}

/// View of an [`Outbound`].
pub struct Sent {
    pub to: PlayerId,
    pub msg: MsgView,
}

impl View for Outbound {
    type V = Sent;

    open spec fn view(&self) -> Sent {
        Sent { to: self.to, msg: self.msg@ }
    }
}

/// The messages of an outbox, in sending order.
pub open spec fn sent(out: Seq<Outbound>) -> Seq<Sent> {
    Seq::new(out.len(), |i: int| out[i]@)
}

/// Appending a message to an outbox appends its view.
pub proof fn lemma_sent_push(out: Seq<Outbound>, m: Outbound)
    ensures
        sent(out.push(m)) == sent(out).push(m@),
{
    assert(sent(out.push(m)) =~= sent(out).push(m@));
}

/// Joining two outboxes joins their views.
pub proof fn lemma_sent_add(a: Seq<Outbound>, b: Seq<Outbound>)
    ensures
        sent(a + b) == sent(a) + sent(b),
{
    assert(sent(a + b) =~= sent(a) + sent(b));
}

} // verus!
