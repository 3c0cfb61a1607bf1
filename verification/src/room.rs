//! A room: its two players, its lobby and its match, and what each player
//! is told when something happens.
//!
//! Nothing here sends anything. Every function returns the messages that
//! are due, each with its recipient, in the order in which they are to be
//! sent; only connected players are written to.

use vstd::prelude::*;
use crate::card::{Card, card_public, public_of};
use crate::deck::{build_deck, coin_flip, full_deck};
use crate::registry::RoomError;
use crate::game::{GameState, Seat};
use crate::message::{
    GameMode, GameUpdate, LobbyPlayer, LobbyState, LobbyView, MsgView, OpponentPublic, Outbound,
    PeekTarget, PlayerView, RoomId, SeatPublic, Sent, ServerToClient, SlotPublic, StageName,
    UpdateView, lemma_sent_add, lemma_sent_push, sent,
};
use crate::model::{DrawSource, GameView, PlayerId, Power, Rejection, SeatSpec, TurnStage};
use crate::score::{hand, score, winner};

verus! {

/// What the room keeps of a player. The record outlives the connection.
#[derive(Clone, Debug, PartialEq, Eq)]
pub struct PlayerRecord {
    pub name: String,
    /// A connection is attached and messages can be delivered.
    pub connected: bool,
    pub ready: bool,
}

/// A player of a room.
#[derive(Clone, Debug, PartialEq, Eq)]
pub struct PlayerEntry {
    pub id: PlayerId,
    pub record: PlayerRecord,
}

impl View for PlayerEntry {
    type V = PlayerView;

    open spec fn view(&self) -> PlayerView {
        PlayerView {
            id: self.id,
            name: self.record.name@,
            connected: self.record.connected,
            ready: self.record.ready,
        }
    }
}

/// A room for two players.
#[derive(Debug)]
pub struct Room {
    pub id: RoomId,
    /// Seconds since the Unix epoch at which the room was created.
    pub created_at: i64,
    pub mode: GameMode,
    pub started: bool,
    /// The players, in joining order; at most two.
    pub players: Vec<PlayerEntry>,
    pub game: Option<GameState>,
}

/// View of a [`Room`].
pub struct RoomView {
    pub id: RoomId,
    pub created_at: i64,
    pub mode: GameMode,
    pub started: bool,
    pub players: Seq<PlayerView>,
    pub game: Option<GameView>,
}

impl View for Room {
    type V = RoomView;

    open spec fn view(&self) -> RoomView {
        RoomView {
            id: self.id,
            created_at: self.created_at,
            mode: self.mode,
            started: self.started,
            players: Seq::new(self.players@.len(), |i: int| self.players@[i]@),
            game: match self.game {
                Some(g) => Some(g@),
                None => None,
            },
        }
    }
}

/// What a broadcast tells each connected player.
#[derive(Clone, Copy, Debug, PartialEq, Eq, Structural)]
pub enum Notice {
    /// The lobby as it is now.
    Lobby,
    /// The match has begun.
    Start { starting_player: PlayerId },
    /// The match as the recipient may see it.
    Update,
}

/// A pile's size as it is reported: the count itself, as far as it fits.
pub open spec fn clip(n: nat) -> u32 {
    if n <= u32::MAX {
        n as u32
    } else {
        u32::MAX
    }
}

/// The public side of a seat: one entry for each slot that has a version.
pub open spec fn public_slots(slots: Seq<Option<Card>>, versions: Seq<u64>) -> Seq<SlotPublic> {
    Seq::new(
        if slots.len() <= versions.len() {
            slots.len()
        } else {
            versions.len()
        },
        |i: int| SlotPublic { empty: slots[i] is None, version: versions[i] },
    )
}

/// The name of a stage.
pub open spec fn stage_name(stage: TurnStage) -> StageName {
    match stage {
        TurnStage::AwaitDraw => StageName::AwaitDraw,
        TurnStage::Holding { card, from } => StageName::Holding,
        TurnStage::Power { card } => StageName::Power,
    }
}

/// The match as `pid` may see it.
pub open spec fn update_for(g: GameView, pid: PlayerId) -> UpdateView {
    let me = g.seat_of(pid);
    let opp = g.seat_of(g.opponent_of(pid));
    UpdateView {
        you: public_slots(me.slots, me.versions),
        opponent: public_slots(opp.slots, opp.versions),
        active: g.active,
        stage: stage_name(g.stage),
        discard_top: if g.discard.len() > 0 {
            Some(public_of(g.discard.last()))
        } else {
            None
        },
        deck_count: clip(g.deck.len()),
        discard_count: clip(g.discard.len()),
        zobbo_remaining: match g.zobbo {
            Some(z) => Some(z.remaining),
            None => None,
        },
    }
}

/// Whether two seats look the same from outside: the same owner, the same
/// slots occupied, the same versions.
pub open spec fn same_outside(a: SeatSpec, b: SeatSpec) -> bool {
    &&& a.id == b.id
    &&& a.versions == b.versions
    &&& a.slots.len() == b.slots.len()
    &&& forall|i: int| 0 <= i < a.slots.len() ==> (a.slots[i] is None) == (b.slots[i] is None)
}

/// An update gives away no card of either seat. Two matches that differ in
/// nothing but the cards that lie in the slots, and in the cards below the
/// tops of the piles, look the same to a player.
pub proof fn lemma_update_hides_cards(a: GameView, b: GameView, pid: PlayerId)
    requires
        a.seats.len() == 2,
        b.seats.len() == 2,
        same_outside(a.seats[0], b.seats[0]),
        same_outside(a.seats[1], b.seats[1]),
        a.active == b.active,
        stage_name(a.stage) == stage_name(b.stage),
        a.zobbo == b.zobbo,
        a.deck.len() == b.deck.len(),
        a.discard.len() == b.discard.len(),
        a.discard.len() > 0 ==> public_of(a.discard.last()) == public_of(b.discard.last()),
    ensures
        update_for(a, pid) == update_for(b, pid),
{
    let ua = update_for(a, pid);
    let ub = update_for(b, pid);
    assert(ua.you =~= ub.you);
    assert(ua.opponent =~= ub.opponent);
}

/// The outcome of the match as it is told to `pid`: the own score and cards
/// first, then the opponent's.
pub open spec fn game_over_for(g: GameView, pid: PlayerId) -> MsgView {
    let me = g.seat_of(pid);
    let opp = g.seat_of(g.opponent_of(pid));
    MsgView::GameOver {
        your_score: score(me.slots) as u32,
        opp_score: score(opp.slots) as u32,
        you_cards: hand(me.slots),
        opp_cards: hand(opp.slots),
        winner: winner(g),
    }
}

/// The peek at one of the first three own cards that a player gets when the
/// match begins.
pub open spec fn first_peek(seat: SeatSpec, index: int) -> MsgView {
    MsgView::PeekResult {
        target: PeekTarget::Own,
        index: index as usize,
        card: public_of(seat.slots[index]->0),
    }
}

impl RoomView {
    /// Validity of a room: at most two players, no two of them with the
    /// same identifier; and a match, once started, is valid and is played
    /// by the two players of the room in their joining order.
    pub open spec fn wf(self) -> bool {
        &&& self.players.len() <= 2
        &&& (self.players.len() == 2 ==> self.players[0].id != self.players[1].id)
        &&& self.started == (self.game is Some)
        &&& (self.game matches Some(g) ==> {
            &&& g.wf()
            &&& self.players.len() == 2
            &&& g.seats[0].id == self.players[0].id
            &&& g.seats[1].id == self.players[1].id
        })
    }

    /// Position of `pid` among the players, if it has joined. A room has
    /// two players at most.
    pub open spec fn position(self, pid: PlayerId) -> Option<int> {
        if self.players.len() > 0 && self.players[0].id == pid {
            Some(0)
        } else if self.players.len() > 1 && self.players[1].id == pid {
            Some(1)
        } else {
            None
        }
    }

    /// Whether `pid` has joined the room.
    pub open spec fn has_player(self, pid: PlayerId) -> bool {
        self.position(pid) is Some
    }

    /// Whether messages can be delivered to `pid`.
    pub open spec fn is_connected(self, pid: PlayerId) -> bool {
        self.position(pid) matches Some(i) && self.players[i].connected
    }

    /// The lobby of the room.
    pub open spec fn lobby(self) -> LobbyView {
        LobbyView { room_id: self.id, mode: self.mode, players: self.players }
    }

    /// The same room with the match in state `g`.
    pub open spec fn with_game(self, g: GameView) -> RoomView {
        RoomView { game: Some(g), ..self }
    }

    /// The same room with the player at position `i` replaced.
    pub open spec fn with_player(self, i: int, p: PlayerView) -> RoomView {
        RoomView { players: self.players.update(i, p), ..self }
    }

    /// Whether `e` is the reason for which an action is refused, where
    /// `in_game` is the reason the match gives, if there is a match.
    pub open spec fn refuses(self, in_game: Option<Rejection>, e: Rejection) -> bool {
        if self.game is None {
            e == Rejection::NoGame
        } else {
            in_game == Some(e)
        }
    }

    /// Whether an action is accepted: there is a match, and it gives no
    /// reason against.
    pub open spec fn accepts(self, in_game: Option<Rejection>) -> bool {
        self.game is Some && in_game is None
    }

    /// A message to `pid`, if it can be delivered.
    pub open spec fn unicast(self, pid: PlayerId, msg: MsgView) -> Seq<Sent> {
        if self.is_connected(pid) {
            seq![Sent { to: pid, msg }]
        } else {
            Seq::empty()
        }
    }

    /// What a broadcast of `notice` tells `pid`, if anything: a game update
    /// needs a match in which `pid` has a seat.
    pub open spec fn notice_for(self, notice: Notice, pid: PlayerId) -> Option<MsgView> {
        match notice {
            Notice::Lobby => Some(MsgView::LobbyUpdate { lobby: self.lobby() }),
            Notice::Start { starting_player } => Some(
                MsgView::GameStart { starting_player, mode: self.mode },
            ),
            Notice::Update => match self.game {
                Some(g) => if g.has_seat(pid) {
                    Some(MsgView::GameUpdate { update: update_for(g, pid) })
                } else {
                    None
                },
                None => None,
            },
        }
    }

    /// What a broadcast of `notice` sends to the player at position `i`: the
    /// notice, if there is such a player, who is connected, and the notice
    /// has something to tell.
    pub open spec fn told(self, notice: Notice, i: int) -> Seq<Sent> {
        if i < self.players.len() && self.players[i].connected && self.notice_for(
            notice,
            self.players[i].id,
        ) is Some {
            seq![
                Sent { to: self.players[i].id, msg: self.notice_for(notice, self.players[i].id)->0 },
            ]
        } else {
            Seq::empty()
        }
    }

    /// The messages of a broadcast: one to each connected player, in
    /// joining order.
    pub open spec fn broadcast(self, notice: Notice) -> Seq<Sent> {
        self.told(notice, 0) + self.told(notice, 1)
    }

    /// The messages that tell both players how the match ended. Without a
    /// match there is nothing to tell.
    pub open spec fn showdown(self) -> Seq<Sent> {
        match self.game {
            Some(g) => self.unicast(g.seats[0].id, game_over_for(g, g.seats[0].id))
                + self.unicast(g.seats[1].id, game_over_for(g, g.seats[1].id)),
            None => Seq::empty(),
        }
    }

    /// The room after the current turn of its match has ended. Without a
    /// match the room is as before.
    pub open spec fn ended(self) -> RoomView {
        match self.game {
            Some(g) => self.with_game(g.end_turn()),
            None => self,
        }
    }

    /// The messages due when the current turn ends: the new state for
    /// everybody and, if this was the last turn, the one whose end brings
    /// the Zobbo countdown to zero, the outcome. Without a match nothing
    /// is due.
    pub open spec fn end_of_turn(self) -> Seq<Sent> {
        match self.game {
            Some(g) => self.ended().broadcast(Notice::Update) + if g.last_turn() {
                self.ended().showdown()
            } else {
                Seq::empty()
            },
            None => Seq::empty(),
        }
    }

    /// The peek at the own slot `index` that the player at `seat` gets when
    /// the match begins, if the slot holds a card.
    pub open spec fn peek_at(self, seat: int, index: int) -> Seq<Sent> {
        match self.game {
            Some(g) => if g.seats[seat].slots[index] is Some {
                self.unicast(g.seats[seat].id, first_peek(g.seats[seat], index))
            } else {
                Seq::empty()
            },
            None => Seq::empty(),
        }
    }

    /// The peeks that the player at `seat` gets when the match begins.
    pub open spec fn seat_peeks(self, seat: int) -> Seq<Sent> {
        self.peek_at(seat, 0) + self.peek_at(seat, 1) + self.peek_at(seat, 2)
    }

    /// The peeks with which a match begins: each player is shown the own
    /// cards in the first three slots. Without a match there are none.
    pub open spec fn initial_peeks(self) -> Seq<Sent> {
        self.seat_peeks(0) + self.seat_peeks(1)
    }

    /// The room after `pid` has joined under `name`: a new player takes the
    /// next place; one who had joined before starts afresh in the old place.
    pub open spec fn joined(self, pid: PlayerId, name: Seq<char>) -> RoomView {
        let p = PlayerView { id: pid, name, connected: false, ready: false };
        match self.position(pid) {
            Some(i) => self.with_player(i, p),
            None => RoomView { players: self.players.push(p), ..self },
        }
    }

    /// The room after the connection of `pid` was attached or detached. A
    /// stranger changes nothing.
    pub open spec fn with_connection(self, pid: PlayerId, connected: bool) -> RoomView {
        match self.position(pid) {
            Some(i) => self.with_player(i, PlayerView { connected, ..self.players[i] }),
            None => self,
        }
    }

    /// The room after `pid` declared to be ready. A stranger changes nothing.
    pub open spec fn readied(self, pid: PlayerId) -> RoomView {
        match self.position(pid) {
            Some(i) => self.with_player(i, PlayerView { ready: true, ..self.players[i] }),
            None => self,
        }
    }

    /// Whether a match is due to begin: both players are connected and
    /// ready and none was started yet.
    pub open spec fn all_set(self) -> bool {
        &&& self.players.len() == 2
        &&& self.players[0].connected && self.players[0].ready
        &&& self.players[1].connected && self.players[1].ready
        &&& !self.started
    }

    /// The player who moves first, as the coin decides.
    pub open spec fn starter(self, coin: bool) -> PlayerId {
        if coin {
            self.players[0].id
        } else {
            self.players[1].id
        }
    }

    /// Whether a match can be dealt from `deck` with `starting` to move
    /// first: it takes two players, of whom `starting` is one, and twelve
    /// cards.
    pub open spec fn can_begin(self, deck: Seq<Card>, starting: PlayerId) -> bool {
        &&& self.players.len() == 2
        &&& (starting == self.players[0].id || starting == self.players[1].id)
        &&& deck.len() >= 12
    }

    /// The room with a match freshly dealt from `deck`.
    pub open spec fn begun(self, deck: Seq<Card>, starting: PlayerId) -> RoomView {
        RoomView {
            started: true,
            game: Some(
                GameState::dealt(deck, self.players[0].id, self.players[1].id, starting),
            ),
            ..self
        }
    }

    /// The outcome of `pid` declaring to be ready, where `coin` and `deck`
    /// are what chance provides should the match begin: everybody is shown
    /// the lobby; if the match begins, everybody is told so and shown the
    /// state, and each player gets the first peeks.
    pub open spec fn readies(
        self,
        pid: PlayerId,
        coin: bool,
        deck: Seq<Card>,
        next: RoomView,
        out: Seq<Sent>,
    ) -> bool {
        let ready = self.readied(pid);
        let starting = ready.starter(coin);
        if ready.all_set() && deck.len() >= 12 {
            &&& next == ready.begun(deck, starting)
            &&& out == next.broadcast(Notice::Lobby) + next.broadcast(
                Notice::Start { starting_player: starting },
            ) + next.broadcast(Notice::Update) + next.initial_peeks()
        } else {
            &&& next == ready
            &&& out == next.broadcast(Notice::Lobby)
        }
    }

    /// The outcome of a draw by `pid` from `src`.
    pub open spec fn draws(
        self,
        pid: PlayerId,
        src: DrawSource,
        next: RoomView,
        r: Result<(), Rejection>,
        out: Seq<Sent>,
    ) -> bool {
        let g = self.game->0;
        match r {
            Err(e) => self.refuses(g.draw_rejection(pid, src), e) && next == self && out.len()
                == 0,
            Ok(_) => {
                &&& self.accepts(g.draw_rejection(pid, src))
                &&& exists|mid: GameView|
                    #![trigger g.ready_for(src, mid)]
                    g.ready_for(src, mid) && next == self.with_game(mid.after_draw(src))
                &&& next.game->0.stage is Holding
                &&& out == next.unicast(
                    pid,
                    MsgView::DrawnCard { card: public_of(next.game->0.stage->Holding_card) },
                ) + next.broadcast(Notice::Update)
            },
        }
    }

    /// The outcome of an action that is refused for the reason the match
    /// gives in `in_game`, or else takes the match to `after`, tells
    /// everybody, and ends the turn.
    pub open spec fn moves_and_ends(
        self,
        in_game: Option<Rejection>,
        after: GameView,
        next: RoomView,
        r: Result<(), Rejection>,
        out: Seq<Sent>,
    ) -> bool {
        match r {
            Err(e) => self.refuses(in_game, e) && next == self && out.len() == 0,
            Ok(_) => {
                let mid = self.with_game(after);
                &&& self.accepts(in_game)
                &&& next == mid.ended()
                &&& out == mid.broadcast(Notice::Update) + mid.end_of_turn()
            },
        }
    }

    /// The outcome of an action that is refused for the reason the match
    /// gives in `in_game`, or else takes the match to `after` and tells
    /// everybody; the turn goes on.
    pub open spec fn moves(
        self,
        in_game: Option<Rejection>,
        after: GameView,
        next: RoomView,
        r: Result<(), Rejection>,
        out: Seq<Sent>,
    ) -> bool {
        match r {
            Err(e) => self.refuses(in_game, e) && next == self && out.len() == 0,
            Ok(_) => {
                &&& self.accepts(in_game)
                &&& next == self.with_game(after)
                &&& out == next.broadcast(Notice::Update)
            },
        }
    }

    /// The outcome of swapping the held card into slot `index`.
    pub open spec fn swaps(
        self,
        pid: PlayerId,
        index: int,
        next: RoomView,
        r: Result<(), Rejection>,
        out: Seq<Sent>,
    ) -> bool {
        let g = self.game->0;
        self.moves_and_ends(g.swap_rejection(pid, index), g.after_swap(pid, index), next, r, out)
    }

    /// The outcome of discarding the held card: if its power opens, the
    /// turn goes on, else it ends.
    pub open spec fn discards(
        self,
        pid: PlayerId,
        next: RoomView,
        r: Result<(), Rejection>,
        out: Seq<Sent>,
    ) -> bool {
        let g = self.game->0;
        if self.game is Some && g.discard_rejection(pid) is None && g.discard_opens_power() {
            self.moves(g.discard_rejection(pid), g.after_discard(), next, r, out)
        } else {
            self.moves_and_ends(g.discard_rejection(pid), g.after_discard(), next, r, out)
        }
    }

    /// The outcome of a match attempt with slot `index`.
    pub open spec fn matches(
        self,
        pid: PlayerId,
        index: int,
        next: RoomView,
        r: Result<(), Rejection>,
        out: Seq<Sent>,
    ) -> bool {
        let g = self.game->0;
        self.moves(g.match_rejection(pid, index), g.after_match(pid, index), next, r, out)
    }

    /// The outcome of a Zobbo call.
    pub open spec fn calls_zobbo(
        self,
        pid: PlayerId,
        next: RoomView,
        r: Result<(), Rejection>,
        out: Seq<Sent>,
    ) -> bool {
        let g = self.game->0;
        self.moves(g.zobbo_rejection(pid), g.after_zobbo(pid), next, r, out)
    }

    /// The outcome of a look at slot `index` of `target`, own or the
    /// opponent's: the card is shown to `pid` alone and the turn ends.
    pub open spec fn peeks(
        self,
        pid: PlayerId,
        target: PeekTarget,
        index: usize,
        next: RoomView,
        r: Result<(), Rejection>,
        out: Seq<Sent>,
    ) -> bool {
        let g = self.game->0;
        let power = if target == PeekTarget::Own {
            Power::CheckOwn
        } else {
            Power::CheckOpponent
        };
        let whose = if target == PeekTarget::Own {
            pid
        } else {
            g.opponent_of(pid)
        };
        match r {
            Err(e) => self.refuses(g.peek_rejection(pid, power, whose, index as int), e) && next
                == self && out.len() == 0,
            Ok(_) => {
                &&& self.accepts(g.peek_rejection(pid, power, whose, index as int))
                &&& next == self.ended()
                &&& out == self.unicast(
                    pid,
                    MsgView::PeekResult {
                        target,
                        index,
                        card: public_of(g.seat_of(whose).slots[index as int]->0),
                    },
                ) + self.end_of_turn()
            },
        }
    }

    /// The outcome of exchanging slot `index` of the seat at `seat` with the
    /// deck by `power`.
    pub open spec fn swaps_with_deck(
        self,
        pid: PlayerId,
        power: Power,
        seat: int,
        index: int,
        next: RoomView,
        r: Result<(), Rejection>,
        out: Seq<Sent>,
    ) -> bool {
        let g = self.game->0;
        match r {
            Err(e) => self.refuses(g.deck_swap_rejection(pid, power, index), e) && next == self
                && out.len() == 0,
            Ok(_) => exists|mid: GameView|
                #![trigger g.ready_for_deck_swap(seat, index, mid)]
                g.ready_for_deck_swap(seat, index, mid) && self.moves_and_ends(
                    g.deck_swap_rejection(pid, power, index),
                    mid.slot_swapped_with_deck(seat, index),
                    next,
                    r,
                    out,
                ),
        }
    }

    /// The outcome of trading the own slot `mine` for the opponent's slot
    /// `theirs`.
    pub open spec fn trades(
        self,
        pid: PlayerId,
        mine: int,
        theirs: int,
        next: RoomView,
        r: Result<(), Rejection>,
        out: Seq<Sent>,
    ) -> bool {
        let g = self.game->0;
        self.moves_and_ends(
            g.trade_rejection(pid, mine, theirs),
            g.after_trade(pid, mine, theirs),
            next,
            r,
            out,
        )
    }

    /// The outcome of the active player's ending the turn.
    pub open spec fn ends_turn(
        self,
        pid: PlayerId,
        next: RoomView,
        r: Result<(), Rejection>,
        out: Seq<Sent>,
    ) -> bool {
        let g = self.game->0;
        match r {
            Err(e) => self.refuses(g.end_turn_rejection(pid), e) && next == self && out.len()
                == 0,
            Ok(_) => {
                &&& self.accepts(g.end_turn_rejection(pid))
                &&& next == self.ended()
                &&& out == self.end_of_turn()
            },
        }
    }
}

/// A pile's size as it is reported.
fn pile_count(n: usize) -> (r: u32)
    ensures
        r == clip(n as nat),
{
    if n <= 0xffff_ffff {
        n as u32
    } else {
        u32::MAX
    }
}

/// The public side of a seat: for each slot whether it is empty, and its
/// version.
pub fn compose_seat_public(seat: &Seat) -> (r: SeatPublic)
    ensures
        r.slots@ == public_slots(seat.slots@, seat.versions@),
{
    let n = if seat.slots.len() <= seat.versions.len() {
        seat.slots.len()
    } else {
        seat.versions.len()
    };
    let mut slots: Vec<SlotPublic> = Vec::with_capacity(n);
    let mut i: usize = 0;
    while i < n
        invariant
            i <= n,
            n <= seat.slots@.len(),
            n <= seat.versions@.len(),
            slots@.len() == i,
            forall|k: int|
                0 <= k < i ==> slots@[k] == (SlotPublic {
                    empty: seat.slots@[k] is None,
                    version: seat.versions@[k],
                }),
        decreases n - i,
    {
        let empty = seat.slots[i].is_none();
        slots.push(SlotPublic { empty, version: seat.versions[i] });
        i = i + 1;
    }
    assert(slots@ =~= public_slots(seat.slots@, seat.versions@));
    SeatPublic { slots }
}

/// The match as `pid` may see it; `None` if `pid` has no seat in it.
pub fn compose_update(game: &GameState, pid: PlayerId) -> (r: Option<GameUpdate>)
    requires
        game@.wf(),
    ensures
        r is Some <==> game@.has_seat(pid),
        r matches Some(u) ==> u@ == update_for(game@, pid),
{
    let me = match game.seat_index(pid) {
        Some(i) => i,
        None => {
            return None;
        },
    };
    let opp: usize = 1 - me;
    let you = compose_seat_public(&game.seats[me].seat);
    let theirs = compose_seat_public(&game.seats[opp].seat);
    let n = game.discard.len();
    let discard_top = if n > 0 {
        Some(card_public(&game.discard[n - 1]))
    } else {
        None
    };
    let stage = match game.stage {
        TurnStage::AwaitDraw => StageName::AwaitDraw,
        TurnStage::Holding { card, from } => StageName::Holding,
        TurnStage::Power { card } => StageName::Power,
    };
    let zobbo_remaining = match game.zobbo {
        Some(z) => Some(z.remaining),
        None => None,
    };
    Some(
        GameUpdate {
            you,
            opponent: OpponentPublic { slots: theirs.slots },
            active: game.active,
            stage,
            discard_top,
            deck_count: pile_count(game.deck.len()),
            discard_count: pile_count(n),
            zobbo_remaining,
        },
    )
}

impl Room {
    /// A new room without players.
    pub fn new(id: RoomId, created_at: i64, mode: GameMode) -> (r: Room)
        ensures
            r@ == (RoomView {
                id,
                created_at,
                mode,
                started: false,
                players: Seq::empty(),
                game: None,
            }),
            r@.wf(),
    {
        let r = Room { id, created_at, mode, started: false, players: Vec::new(), game: None };
        assert(r@.players =~= Seq::empty());
        r
    }

    /// Position of `pid` among the players, if it has joined.
    pub fn find_player(&self, pid: PlayerId) -> (r: Option<usize>)
        requires
            self@.wf(),
        ensures
            r is Some <==> self@.has_player(pid),
            r matches Some(i) ==> self@.position(pid) == Some(i as int) && i < self.players@.len()
                && self@.players[i as int].id == pid,
    {
        let n = self.players.len();
        if n > 0 && self.players[0].id == pid {
            Some(0)
        } else if n > 1 && self.players[1].id == pid {
            Some(1)
        } else {
            None
        }
    }
}

impl LobbyState {
    /// The lobby of `room`.
    pub fn from_room(room: &Room) -> (r: LobbyState)
        ensures
            r@ == room@.lobby(),
    {
        let n = room.players.len();
        let mut players: Vec<LobbyPlayer> = Vec::with_capacity(n);
        let mut i: usize = 0;
        while i < n
            invariant
                i <= n,
                n == room.players@.len(),
                players@.len() == i,
                forall|k: int| 0 <= k < i ==> players@[k]@ == room.players@[k]@,
            decreases n - i,
        {
            let p = &room.players[i];
            players.push(
                LobbyPlayer {
                    id: p.id,
                    name: p.record.name.clone(),
                    connected: p.record.connected,
                    ready: p.record.ready,
                },
            );
            i = i + 1;
        }
        let r = LobbyState { room_id: room.id, mode: room.mode, players };
        assert(r@.players =~= room@.players);
        r
    }
}

/// Moves the messages of `more` to the end of `out`.
fn append_all(out: &mut Vec<Outbound>, more: Vec<Outbound>)
    ensures
        sent(final(out)@) == sent(old(out)@) + sent(more@),
{
    let mut more = more;
    proof {
        lemma_sent_add(out@, more@);
    }
    out.append(&mut more);
}

/// No message at all.
fn nothing() -> (out: Vec<Outbound>)
    ensures
        out@.len() == 0,
        sent(out@) == Seq::<Sent>::empty(),
{
    let out: Vec<Outbound> = Vec::new();
    assert(sent(out@) =~= Seq::<Sent>::empty());
    out
}

impl Room {
    /// A message for `pid`: it is due if `pid` has joined and is connected.
    pub fn send_to(&self, pid: PlayerId, msg: ServerToClient) -> (out: Vec<Outbound>)
        requires
            self@.wf(),
        ensures
            sent(out@) == self@.unicast(pid, msg@),
    {
        let mut out: Vec<Outbound> = Vec::new();
        match self.find_player(pid) {
            Some(i) => {
                if self.players[i].record.connected {
                    out.push(Outbound { to: pid, msg });
                }
            },
            None => {},
        }
        assert(sent(out@) =~= self@.unicast(pid, msg@));
        out
    }

    /// The match as `pid` may see it; `None` without a match, or if `pid`
    /// has no seat in it.
    pub fn compose_update_for(&self, pid: PlayerId) -> (r: Option<GameUpdate>)
        requires
            self@.wf(),
        ensures
            r is Some <==> self@.game is Some && self@.game->0.has_seat(pid),
            r matches Some(u) ==> u@ == update_for(self@.game->0, pid),
    {
        match &self.game {
            Some(g) => compose_update(g, pid),
            None => None,
        }
    }

    /// What a broadcast of `notice` tells `pid`, if anything.
    fn notice_for(&self, notice: Notice, pid: PlayerId) -> (r: Option<ServerToClient>)
        requires
            self@.wf(),
        ensures
            r is Some <==> self@.notice_for(notice, pid) is Some,
            r matches Some(m) ==> self@.notice_for(notice, pid) == Some(m@),
    {
        match notice {
            Notice::Lobby => Some(ServerToClient::LobbyUpdate { lobby: LobbyState::from_room(self) }),
            Notice::Start { starting_player } => Some(
                ServerToClient::GameStart { starting_player, mode: self.mode },
            ),
            Notice::Update => match self.compose_update_for(pid) {
                Some(update) => Some(ServerToClient::GameUpdate { update }),
                None => None,
            },
        }
    }

    /// The message that tells the player at position `i` of `notice`, if one
    /// is due.
    fn tell(&self, notice: Notice, i: usize) -> (out: Vec<Outbound>)
        requires
            self@.wf(),
        ensures
            sent(out@) == self@.told(notice, i as int),
    {
        let mut out: Vec<Outbound> = Vec::new();
        if i < self.players.len() && self.players[i].record.connected {
            match self.notice_for(notice, self.players[i].id) {
                Some(msg) => {
                    out.push(Outbound { to: self.players[i].id, msg });
                },
                None => {},
            }
        }
        assert(sent(out@) =~= self@.told(notice, i as int));
        out
    }

    /// The messages that tell every connected player of `notice`.
    pub fn broadcast(&self, notice: Notice) -> (out: Vec<Outbound>)
        requires
            self@.wf(),
        ensures
            sent(out@) == self@.broadcast(notice),
    {
        let mut out = self.tell(notice, 0);
        let more = self.tell(notice, 1);
        append_all(&mut out, more);
        out
    }

    /// The messages that show every connected player the match as that
    /// player may see it.
    pub fn broadcast_game_update(&self) -> (out: Vec<Outbound>)
        requires
            self@.wf(),
        ensures
            sent(out@) == self@.broadcast(Notice::Update),
    {
        self.broadcast(Notice::Update)
    }

    /// The messages that tell both players how the match ended. Without a
    /// match there are none.
    pub fn reveal_and_finish(&self) -> (out: Vec<Outbound>)
        requires
            self@.wf(),
        ensures
            sent(out@) == self@.showdown(),
    {
        match &self.game {
            Some(g) => {
                let a = g.seats[0].id;
                let b = g.seats[1].id;
                let first = g.showdown();
                let second = g.showdown();
                proof {
                    crate::score::lemma_score_bound(g@.seats[0].slots);
                    crate::score::lemma_score_bound(g@.seats[1].slots);
                }
                let mut out = self.send_to(
                    a,
                    ServerToClient::GameOver {
                        your_score: first.first_score,
                        opp_score: first.second_score,
                        you_cards: first.first_cards,
                        opp_cards: first.second_cards,
                        winner: first.winner,
                    },
                );
                let more = self.send_to(
                    b,
                    ServerToClient::GameOver {
                        your_score: second.second_score,
                        opp_score: second.first_score,
                        you_cards: second.second_cards,
                        opp_cards: second.first_cards,
                        winner: second.winner,
                    },
                );
                append_all(&mut out, more);
                out
            },
            None => nothing(),
        }
    }

    /// Ends the current turn of the match, shows everybody the new state
    /// and, if this was the last turn before the reveal, the outcome.
    /// Without a match nothing changes and nothing is sent.
    pub fn end_turn_common(&mut self) -> (out: Vec<Outbound>)
        requires
            old(self)@.wf(),
        ensures
            final(self)@.wf(),
            final(self)@ == old(self)@.ended(),
            sent(out@) == old(self)@.end_of_turn(),
            old(self)@.game is Some ==> final(self)@.game->0.cards() == old(self)@.game->0.cards(),
    {
        let done = match &mut self.game {
            Some(g) => g.end_turn_common(),
            None => {
                return nothing();
            },
        };
        proof {
            assert(self@.players =~= old(self)@.players);
        }
        let mut out = self.broadcast_game_update();
        if done {
            let over = self.reveal_and_finish();
            append_all(&mut out, over);
        } else {
            assert(sent(out@) + Seq::<Sent>::empty() =~= sent(out@));
        }
        out
    }

    /// Shows everybody the state the match is in and then ends the turn.
    fn tell_and_end(&mut self) -> (out: Vec<Outbound>)
        requires
            old(self)@.wf(),
        ensures
            final(self)@.wf(),
            final(self)@ == old(self)@.ended(),
            sent(out@) == old(self)@.broadcast(Notice::Update) + old(self)@.end_of_turn(),
            old(self)@.game is Some ==> final(self)@.game->0.cards() == old(self)@.game->0.cards(),
    {
        let mut out = self.broadcast_game_update();
        let more = self.end_turn_common();
        append_all(&mut out, more);
        out
    }

    /// The active player draws from the deck or the discard pile. The player
    /// is shown the card, and everybody the new state.
    pub fn handle_draw(&mut self, pid: PlayerId, src: DrawSource) -> (r: (
        Result<(), Rejection>,
        Vec<Outbound>,
    ))
        requires
            old(self)@.wf(),
        ensures
            final(self)@.wf(),
            old(self)@.draws(pid, src, final(self)@, r.0, sent(r.1@)),
            old(self)@.game is Some ==> final(self)@.game->0.cards() == old(self)@.game->0.cards(),
    {
        let drawn = match &mut self.game {
            Some(g) => g.draw(pid, src),
            None => Err(Rejection::NoGame),
        };
        proof {
            assert(self@.players =~= old(self)@.players);
        }
        match drawn {
            Ok(card) => {
                proof {
                    let before = old(self)@.game->0;
                    let mid = choose|mid: GameView|
                        #![trigger before.ready_for(src, mid)]
                        before.ready_for(src, mid) && self@.game->0 == mid.after_draw(src);
                    assert(self@ == old(self)@.with_game(mid.after_draw(src)));
                }
                let mut out = self.send_to(
                    pid,
                    ServerToClient::DrawnCard { card: card_public(&card) },
                );
                let updates = self.broadcast_game_update();
                append_all(&mut out, updates);
                (Ok(()), out)
            },
            Err(e) => (Err(e), Vec::new()),
        }
    }

    /// The active player swaps the held card into slot `index`. Everybody is
    /// shown the new state, and the turn ends.
    pub fn handle_swap_with_hand(&mut self, pid: PlayerId, index: usize) -> (r: (
        Result<(), Rejection>,
        Vec<Outbound>,
    ))
        requires
            old(self)@.wf(),
        ensures
            final(self)@.wf(),
            old(self)@.swaps(pid, index as int, final(self)@, r.0, sent(r.1@)),
            old(self)@.game is Some ==> final(self)@.game->0.cards() == old(self)@.game->0.cards(),
    {
        let moved = match &mut self.game {
            Some(g) => g.swap_with_hand(pid, index),
            None => Err(Rejection::NoGame),
        };
        proof {
            assert(self@.players =~= old(self)@.players);
        }
        match moved {
            Ok(_) => {
                let out = self.tell_and_end();
                (Ok(()), out)
            },
            Err(e) => (Err(e), Vec::new()),
        }
    }

    /// The active player discards the held card. Everybody is shown the new
    /// state; unless the card's power opens, the turn ends.
    pub fn handle_discard_drawn(&mut self, pid: PlayerId) -> (r: (
        Result<(), Rejection>,
        Vec<Outbound>,
    ))
        requires
            old(self)@.wf(),
        ensures
            final(self)@.wf(),
            old(self)@.discards(pid, final(self)@, r.0, sent(r.1@)),
            old(self)@.game is Some ==> final(self)@.game->0.cards() == old(self)@.game->0.cards(),
    {
        let moved = match &mut self.game {
            Some(g) => g.discard_drawn(pid),
            None => Err(Rejection::NoGame),
        };
        proof {
            assert(self@.players =~= old(self)@.players);
        }
        match moved {
            Ok(power) => {
                if power {
                    let out = self.broadcast_game_update();
                    (Ok(()), out)
                } else {
                    let out = self.tell_and_end();
                    (Ok(()), out)
                }
            },
            Err(e) => (Err(e), Vec::new()),
        }
    }

    /// A player tries to match the top of the discard pile with the own slot
    /// `index`. Everybody is shown the new state; the turn goes on.
    pub fn handle_match_top(&mut self, pid: PlayerId, index: usize) -> (r: (
        Result<(), Rejection>,
        Vec<Outbound>,
    ))
        requires
            old(self)@.wf(),
        ensures
            final(self)@.wf(),
            old(self)@.matches(pid, index as int, final(self)@, r.0, sent(r.1@)),
            old(self)@.game is Some ==> final(self)@.game->0.cards() == old(self)@.game->0.cards(),
    {
        let moved = match &mut self.game {
            Some(g) => g.match_top(pid, index),
            None => Err(Rejection::NoGame),
        };
        proof {
            assert(self@.players =~= old(self)@.players);
        }
        match moved {
            Ok(_) => {
                let out = self.broadcast_game_update();
                (Ok(()), out)
            },
            Err(e) => (Err(e), Vec::new()),
        }
    }

    /// The player who is not active calls Zobbo. Everybody is shown the new
    /// state.
    pub fn handle_call_zobbo(&mut self, pid: PlayerId) -> (r: (
        Result<(), Rejection>,
        Vec<Outbound>,
    ))
        requires
            old(self)@.wf(),
        ensures
            final(self)@.wf(),
            old(self)@.calls_zobbo(pid, final(self)@, r.0, sent(r.1@)),
            old(self)@.game is Some ==> final(self)@.game->0.cards() == old(self)@.game->0.cards(),
    {
        let moved = match &mut self.game {
            Some(g) => g.call_zobbo(pid),
            None => Err(Rejection::NoGame),
        };
        proof {
            assert(self@.players =~= old(self)@.players);
        }
        match moved {
            Ok(_) => {
                let out = self.broadcast_game_update();
                (Ok(()), out)
            },
            Err(e) => (Err(e), Vec::new()),
        }
    }

    /// The shared course of the two powers that look at a card.
    fn handle_peek(&mut self, pid: PlayerId, target: PeekTarget, index: usize) -> (r: (
        Result<(), Rejection>,
        Vec<Outbound>,
    ))
        requires
            old(self)@.wf(),
        ensures
            final(self)@.wf(),
            old(self)@.peeks(pid, target, index, final(self)@, r.0, sent(r.1@)),
            old(self)@.game is Some ==> final(self)@.game->0.cards() == old(self)@.game->0.cards(),
    {
        let seen = match &self.game {
            Some(g) => match target {
                PeekTarget::Own => g.power_check_own(pid, index),
                PeekTarget::Opponent => g.power_check_opp(pid, index),
            },
            None => Err(Rejection::NoGame),
        };
        match seen {
            Ok(card) => {
                let mut out = self.send_to(
                    pid,
                    ServerToClient::PeekResult { target, index, card },
                );
                let more = self.end_turn_common();
                append_all(&mut out, more);
                (Ok(()), out)
            },
            Err(e) => (Err(e), Vec::new()),
        }
    }

    /// Power of the five to eight: the active player is shown the own card
    /// in slot `index`, and the turn ends.
    pub fn handle_power_check_own(&mut self, pid: PlayerId, index: usize) -> (r: (
        Result<(), Rejection>,
        Vec<Outbound>,
    ))
        requires
            old(self)@.wf(),
        ensures
            final(self)@.wf(),
            old(self)@.peeks(pid, PeekTarget::Own, index, final(self)@, r.0, sent(r.1@)),
            old(self)@.game is Some ==> final(self)@.game->0.cards() == old(self)@.game->0.cards(),
    {
        self.handle_peek(pid, PeekTarget::Own, index)
    }

    /// Power of the nine and ten: the active player is shown the opponent's
    /// card in slot `index`, and the turn ends.
    pub fn handle_power_check_opp(&mut self, pid: PlayerId, index: usize) -> (r: (
        Result<(), Rejection>,
        Vec<Outbound>,
    ))
        requires
            old(self)@.wf(),
        ensures
            final(self)@.wf(),
            old(self)@.peeks(pid, PeekTarget::Opponent, index, final(self)@, r.0, sent(r.1@)),
            old(self)@.game is Some ==> final(self)@.game->0.cards() == old(self)@.game->0.cards(),
    {
        self.handle_peek(pid, PeekTarget::Opponent, index)
    }

    /// Power of the jack: the own card in slot `index` is exchanged with the
    /// top of the deck. Everybody is shown the new state, and the turn
    /// ends.
    pub fn handle_power_swap_with_deck(&mut self, pid: PlayerId, index: usize) -> (r: (
        Result<(), Rejection>,
        Vec<Outbound>,
    ))
        requires
            old(self)@.wf(),
        ensures
            final(self)@.wf(),
            old(self)@.swaps_with_deck(
                pid,
                Power::SwapWithDeck,
                old(self)@.game->0.seat_index(pid),
                index as int,
                final(self)@,
                r.0,
                sent(r.1@),
            ),
            old(self)@.game is Some ==> final(self)@.game->0.cards() == old(self)@.game->0.cards(),
    {
        let moved = match &mut self.game {
            Some(g) => g.power_swap_with_deck(pid, index),
            None => Err(Rejection::NoGame),
        };
        proof {
            assert(self@.players =~= old(self)@.players);
        }
        match moved {
            Ok(_) => {
                let ghost after = self@.game->0;
                let out = self.tell_and_end();
                proof {
                    let g = old(self)@.game->0;
                    let seat = g.seat_index(pid);
                    let mid = choose|mid: GameView|
                        #![trigger g.ready_for_deck_swap(seat, index as int, mid)]
                        g.ready_for_deck_swap(seat, index as int, mid) && after
                            == mid.slot_swapped_with_deck(seat, index as int);
                    assert(g.ready_for_deck_swap(seat, index as int, mid));
                }
                (Ok(()), out)
            },
            Err(e) => (Err(e), Vec::new()),
        }
    }

    /// Power of the red king: the opponent's card in slot `opp_index` is
    /// exchanged with the top of the deck. Everybody is shown the new
    /// state, and the turn ends.
    pub fn handle_power_opp_swap_with_deck(&mut self, pid: PlayerId, opp_index: usize) -> (r: (
        Result<(), Rejection>,
        Vec<Outbound>,
    ))
        requires
            old(self)@.wf(),
        ensures
            final(self)@.wf(),
            old(self)@.swaps_with_deck(
                pid,
                Power::OpponentSwapWithDeck,
                1 - old(self)@.game->0.seat_index(pid),
                opp_index as int,
                final(self)@,
                r.0,
                sent(r.1@),
            ),
            old(self)@.game is Some ==> final(self)@.game->0.cards() == old(self)@.game->0.cards(),
    {
        let moved = match &mut self.game {
            Some(g) => g.power_opp_swap_with_deck(pid, opp_index),
            None => Err(Rejection::NoGame),
        };
        proof {
            assert(self@.players =~= old(self)@.players);
        }
        match moved {
            Ok(_) => {
                let ghost after = self@.game->0;
                let out = self.tell_and_end();
                proof {
                    let g = old(self)@.game->0;
                    let seat = 1 - g.seat_index(pid);
                    let mid = choose|mid: GameView|
                        #![trigger g.ready_for_deck_swap(seat, opp_index as int, mid)]
                        g.ready_for_deck_swap(seat, opp_index as int, mid) && after
                            == mid.slot_swapped_with_deck(seat, opp_index as int);
                    assert(g.ready_for_deck_swap(seat, opp_index as int, mid));
                }
                (Ok(()), out)
            },
            Err(e) => (Err(e), Vec::new()),
        }
    }

    /// Power of the queen: the own card in slot `my_index` and the
    /// opponent's in slot `opp_index` change places. Everybody is shown the
    /// new state, and the turn ends.
    pub fn handle_power_swap_with_opp(
        &mut self,
        pid: PlayerId,
        my_index: usize,
        opp_index: usize,
    ) -> (r: (Result<(), Rejection>, Vec<Outbound>))
        requires
            old(self)@.wf(),
        ensures
            final(self)@.wf(),
            old(self)@.trades(
                pid,
                my_index as int,
                opp_index as int,
                final(self)@,
                r.0,
                sent(r.1@),
            ),
            old(self)@.game is Some ==> final(self)@.game->0.cards() == old(self)@.game->0.cards(),
    {
        let moved = match &mut self.game {
            Some(g) => g.power_swap_with_opp(pid, my_index, opp_index),
            None => Err(Rejection::NoGame),
        };
        proof {
            assert(self@.players =~= old(self)@.players);
        }
        match moved {
            Ok(_) => {
                let out = self.tell_and_end();
                (Ok(()), out)
            },
            Err(e) => (Err(e), Vec::new()),
        }
    }

    /// Whether there is a match in which it is the turn of `pid`.
    pub fn is_active(&self, pid: PlayerId) -> (r: bool)
        ensures
            r == (self@.game matches Some(g) && g.active == pid),
    {
        match &self.game {
            Some(g) => g.is_active(pid),
            None => false,
        }
    }

    /// The active player ends the turn, giving up what the stage still
    /// offered: a draw not made, a power not used. With a card in hand the
    /// turn cannot be ended.
    pub fn handle_end_turn(&mut self, pid: PlayerId) -> (r: (Result<(), Rejection>, Vec<Outbound>))
        requires
            old(self)@.wf(),
        ensures
            final(self)@.wf(),
            old(self)@.ends_turn(pid, final(self)@, r.0, sent(r.1@)),
            old(self)@.game is Some ==> final(self)@.game->0.cards() == old(self)@.game->0.cards(),
    {
        let verdict = match &self.game {
            Some(g) => g.end_turn_rejection(pid),
            None => Some(Rejection::NoGame),
        };
        match verdict {
            Some(e) => (Err(e), Vec::new()),
            None => {
                let out = self.end_turn_common();
                (Ok(()), out)
            },
        }
    }
}

impl Room {
    /// Whether the room is valid, as every room is that was made by
    /// [`Self::new`] and changed by the functions of this type alone.
    pub fn is_valid(&self) -> (r: bool)
        ensures
            r == self@.wf(),
    {
        let n = self.players.len();
        if n > 2 || (n == 2 && self.players[0].id == self.players[1].id) {
            return false;
        }
        match &self.game {
            Some(g) => self.started && g.is_valid() && n == 2 && g.seats[0].id
                == self.players[0].id && g.seats[1].id == self.players[1].id,
            None => !self.started,
        }
    }

    /// Whether `pid` has joined the room.
    pub fn has_player(&self, pid: PlayerId) -> (r: bool)
        requires
            self@.wf(),
        ensures
            r == self@.has_player(pid),
    {
        self.find_player(pid).is_some()
    }

    /// The two players, once both have joined.
    pub fn get_both_ids(&self) -> (r: Option<(PlayerId, PlayerId)>)
        ensures
            r is Some <==> self@.players.len() == 2,
            r matches Some(ids) ==> ids.0 == self@.players[0].id && ids.1 == self@.players[1].id,
    {
        if self.players.len() == 2 {
            Some((self.players[0].id, self.players[1].id))
        } else {
            None
        }
    }

    /// A player joins under `name`. A room that has its two players takes
    /// no more.
    pub fn join(&mut self, pid: PlayerId, name: String) -> (r: Result<(), RoomError>)
        requires
            old(self)@.wf(),
        ensures
            final(self)@.wf(),
            match r {
                Err(e) => e == RoomError::Full && old(self)@.players.len() >= 2 && final(self)@
                    == old(self)@,
                Ok(_) => old(self)@.players.len() < 2 && final(self)@ == old(self)@.joined(
                    pid,
                    name@,
                ),
            },
    {
        if self.players.len() >= 2 {
            return Err(RoomError::Full);
        }
        let record = PlayerRecord { name, connected: false, ready: false };
        match self.find_player(pid) {
            Some(i) => {
                self.players[i].record = record;
                proof {
                    assert(self@.players =~= old(self)@.joined(pid, name@).players);
                }
            },
            None => {
                self.players.push(PlayerEntry { id: pid, record });
                proof {
                    assert(self@.players =~= old(self)@.joined(pid, name@).players);
                }
            },
        }
        Ok(())
    }

    /// Marks the player `pid`, if there is one, as connected or not.
    fn set_connected(&mut self, pid: PlayerId, connected: bool)
        requires
            old(self)@.wf(),
        ensures
            final(self)@.wf(),
            final(self)@ == old(self)@.with_connection(pid, connected),
    {
        match self.find_player(pid) {
            Some(i) => {
                self.players[i].record.connected = connected;
                proof {
                    assert(self@.players =~= old(self)@.with_connection(pid, connected).players);
                }
            },
            None => {
                proof {
                    assert(self@.players =~= old(self)@.players);
                }
            },
        }
    }

    /// A connection of `pid` is attached. Everybody connected is shown the
    /// lobby, and `pid` is then welcomed over the new connection.
    pub fn on_connect(&mut self, pid: PlayerId) -> (out: Vec<Outbound>)
        requires
            old(self)@.wf(),
        ensures
            final(self)@.wf(),
            final(self)@ == old(self)@.with_connection(pid, true),
            sent(out@) == final(self)@.broadcast(Notice::Lobby).push(
                Sent {
                    to: pid,
                    msg: MsgView::Welcome { player_id: pid, lobby: final(self)@.lobby() },
                },
            ),
    {
        self.set_connected(pid, true);
        let mut out = self.broadcast(Notice::Lobby);
        let m = Outbound {
            to: pid,
            msg: ServerToClient::Welcome { player_id: pid, lobby: LobbyState::from_room(self) },
        };
        proof {
            lemma_sent_push(out@, m);
        }
        out.push(m);
        out
    }

    /// The connection of `pid` is gone. The player keeps seat and cards;
    /// everybody still connected is shown the lobby.
    pub fn on_disconnect(&mut self, pid: PlayerId) -> (out: Vec<Outbound>)
        requires
            old(self)@.wf(),
        ensures
            final(self)@.wf(),
            final(self)@ == old(self)@.with_connection(pid, false),
            sent(out@) == final(self)@.broadcast(Notice::Lobby),
    {
        self.set_connected(pid, false);
        self.broadcast(Notice::Lobby)
    }

    /// Deals a match from `deck` in which `starting` moves first, replacing
    /// any match there was. Returns whether the match could be dealt;
    /// otherwise nothing changes.
    pub fn start_game_with(&mut self, starting: PlayerId, deck: Vec<Card>) -> (r: bool)
        requires
            old(self)@.wf(),
        ensures
            final(self)@.wf(),
            r == old(self)@.can_begin(deck@, starting),
            r ==> final(self)@ == old(self)@.begun(deck@, starting) && final(self)@.game->0.cards()
                == deck@.to_multiset(),
            !r ==> final(self)@ == old(self)@,
    {
        let (a, b) = match self.get_both_ids() {
            Some(ids) => ids,
            None => {
                return false;
            },
        };
        match GameState::deal(deck, a, b, starting) {
            Some(g) => {
                self.game = Some(g);
                self.started = true;
                proof {
                    assert(self@.players =~= old(self)@.players);
                }
                true
            },
            None => false,
        }
    }

    /// Deals a match from a freshly shuffled deck in which `starting` moves
    /// first. Returns whether the match could be dealt: it takes two
    /// players, of whom `starting` is one.
    pub fn start_game(&mut self, starting: PlayerId) -> (r: bool)
        requires
            old(self)@.wf(),
        ensures
            final(self)@.wf(),
            r == (old(self)@.players.len() == 2 && (starting == old(self)@.players[0].id
                || starting == old(self)@.players[1].id)),
            r ==> final(self)@.game is Some && final(self)@.game->0.cards() == full_deck()
                && exists|deck: Seq<Card>|
                #![trigger old(self)@.begun(deck, starting)]
                deck.to_multiset() == full_deck() && final(self)@ == old(self)@.begun(
                    deck,
                    starting,
                ),
            !r ==> final(self)@ == old(self)@,
    {
        let deck = build_deck();
        let ghost d = deck@;
        let r = self.start_game_with(starting, deck);
        proof {
            if r {
                assert(self@ == old(self)@.begun(d, starting));
            }
        }
        r
    }

    /// The peek of the player at `seat` at the own slot `index`, if the slot
    /// holds a card.
    fn peek_at(&self, seat: usize, index: usize) -> (out: Vec<Outbound>)
        requires
            self@.wf(),
            seat < 2,
            index < 6,
        ensures
            sent(out@) == self@.peek_at(seat as int, index as int),
    {
        match &self.game {
            Some(g) => match g.seats[seat].seat.slots[index] {
                Some(c) => self.send_to(
                    g.seats[seat].id,
                    ServerToClient::PeekResult {
                        target: PeekTarget::Own,
                        index,
                        card: card_public(&c),
                    },
                ),
                None => {
                    let out: Vec<Outbound> = Vec::new();
                    assert(sent(out@) =~= Seq::<Sent>::empty());
                    out
                },
            },
            None => nothing(),
        }
    }

    /// The peeks of the player at `seat` at the own first three cards.
    fn seat_peeks(&self, seat: usize) -> (out: Vec<Outbound>)
        requires
            self@.wf(),
            seat < 2,
        ensures
            sent(out@) == self@.seat_peeks(seat as int),
    {
        let mut out = self.peek_at(seat, 0);
        let second = self.peek_at(seat, 1);
        append_all(&mut out, second);
        let third = self.peek_at(seat, 2);
        append_all(&mut out, third);
        out
    }

    /// The peeks with which a match begins: each player is shown the own
    /// cards in the first three slots. Without a match there are none.
    pub fn send_initial_peeks(&self) -> (out: Vec<Outbound>)
        requires
            self@.wf(),
        ensures
            sent(out@) == self@.initial_peeks(),
    {
        let mut out = self.seat_peeks(0);
        let more = self.seat_peeks(1);
        append_all(&mut out, more);
        out
    }

    /// Marks the player `pid`, if there is one, as ready. Returns whether a
    /// match is now due to begin.
    fn set_ready(&mut self, pid: PlayerId) -> (due: bool)
        requires
            old(self)@.wf(),
        ensures
            final(self)@.wf(),
            final(self)@ == old(self)@.readied(pid),
            due == final(self)@.all_set(),
    {
        match self.find_player(pid) {
            Some(i) => {
                self.players[i].record.ready = true;
                proof {
                    assert(self@.players =~= old(self)@.readied(pid).players);
                }
            },
            None => {
                proof {
                    assert(self@.players =~= old(self)@.players);
                }
            },
        }
        self.players.len() == 2 && self.players[0].record.connected
            && self.players[0].record.ready && self.players[1].record.connected
            && self.players[1].record.ready && !self.started
    }

    /// The messages with which a match that has just been dealt begins.
    fn opening(&self, starting: PlayerId) -> (out: Vec<Outbound>)
        requires
            self@.wf(),
        ensures
            sent(out@) == self@.broadcast(Notice::Lobby) + self@.broadcast(
                Notice::Start { starting_player: starting },
            ) + self@.broadcast(Notice::Update) + self@.initial_peeks(),
    {
        let mut out = self.broadcast(Notice::Lobby);
        let start = self.broadcast(Notice::Start { starting_player: starting });
        append_all(&mut out, start);
        let updates = self.broadcast_game_update();
        append_all(&mut out, updates);
        let peeks = self.send_initial_peeks();
        append_all(&mut out, peeks);
        out
    }

    /// The player `pid` is ready. Should that make the match begin, `coin`
    /// decides who moves first and the match is dealt from `deck`, which
    /// must hold twelve cards at least for that.
    pub fn on_player_ready_with(&mut self, pid: PlayerId, coin: bool, deck: Vec<Card>) -> (out:
        Vec<Outbound>)
        requires
            old(self)@.wf(),
        ensures
            final(self)@.wf(),
            old(self)@.readies(pid, coin, deck@, final(self)@, sent(out@)),
            final(self)@.started && !old(self)@.started ==> final(self)@.game->0.cards()
                == deck@.to_multiset(),
    {
        let due = self.set_ready(pid);
        if due && deck.len() >= 12 {
            let starting = if coin {
                self.players[0].id
            } else {
                self.players[1].id
            };
            let begun = self.start_game_with(starting, deck);
            self.opening(starting)
        } else {
            self.broadcast(Notice::Lobby)
        }
    }

    /// The player `pid` is ready. Once both players are connected and ready
    /// the match begins: a coin decides who moves first and the cards are
    /// dealt from a freshly shuffled deck.
    pub fn on_player_ready(&mut self, pid: PlayerId) -> (out: Vec<Outbound>)
        requires
            old(self)@.wf(),
        ensures
            final(self)@.wf(),
            exists|coin: bool, deck: Seq<Card>|
                #![trigger old(self)@.readies(pid, coin, deck, final(self)@, sent(out@))]
                deck.to_multiset() == full_deck() && old(self)@.readies(
                    pid,
                    coin,
                    deck,
                    final(self)@,
                    sent(out@),
                ),
            final(self)@.started && !old(self)@.started ==> final(self)@.game->0.cards()
                == full_deck(),
    {
        let coin = coin_flip();
        let deck = build_deck();
        let ghost d = deck@;
        let out = self.on_player_ready_with(pid, coin, deck);
        proof {
            assert(old(self)@.readies(pid, coin, d, self@, sent(out@)));
        }
        out
    }
}

} // verus!
