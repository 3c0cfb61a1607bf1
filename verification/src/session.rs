//! One player's connection to a room: what is done about each thing that
//! arrives, and what is sent in return.
//!
//! The functions here decide; reading frames, parsing them and writing to
//! sockets is left to the caller, who holds the room's lock while a decision
//! is made and sends the messages after releasing it.

use vstd::prelude::*;
use vstd::string::StringExecFns;
use crate::card::Card;
use crate::deck::full_deck;
use crate::message::{ClientToServer, MsgView, Outbound, PeekTarget, RoomId, Sent, ServerToClient, sent};
use crate::model::{DrawSource, PlayerId, Power, Rejection};
use crate::registry::RoomError;
use crate::room::{Room, RoomView};

verus! {

/// What the read loop of a connection got.
#[derive(Debug)]
pub enum Frame {
    /// A text frame: the message it parsed to, or the parser's complaint.
    Text(Result<ClientToServer, String>),
    Binary,
    Ping,
    Pong,
    Close,
}

/// What is to be done about a frame.
#[derive(Debug)]
pub struct Reply {
    /// Whether the action in the frame, if any, was taken.
    pub result: Result<(), Rejection>,
    /// The messages to send.
    pub out: Vec<Outbound>,
    /// Whether the connection stays open.
    pub open: bool,
}

/// The outcome of a message of `pid`.
pub open spec fn handles(
    room: RoomView,
    pid: PlayerId,
    msg: ClientToServer,
    next: RoomView,
    r: Result<(), Rejection>,
    out: Seq<Sent>,
) -> bool {
    let g = room.game->0;
    match msg {
        ClientToServer::Ping => next == room && r is Ok && out == seq![
            Sent { to: pid, msg: MsgView::Pong },
        ],
        ClientToServer::Ready => r is Ok && exists|coin: bool, deck: Seq<Card>|
            #![trigger room.readies(pid, coin, deck, next, out)]
            deck.to_multiset() == full_deck() && room.readies(pid, coin, deck, next, out),
        ClientToServer::DrawDeck => room.draws(pid, DrawSource::Deck, next, r, out),
        ClientToServer::DrawDiscard => room.draws(pid, DrawSource::Discard, next, r, out),
        ClientToServer::SwapWithHand { index } => room.swaps(pid, index as int, next, r, out),
        ClientToServer::DiscardDrawn => room.discards(pid, next, r, out),
        ClientToServer::MatchTop { index } => room.matches(pid, index as int, next, r, out),
        ClientToServer::CallZobbo => room.calls_zobbo(pid, next, r, out),
        ClientToServer::PowerCheckOwn { index } => room.peeks(
            pid,
            PeekTarget::Own,
            index,
            next,
            r,
            out,
        ),
        ClientToServer::PowerCheckOpp { index } => room.peeks(
            pid,
            PeekTarget::Opponent,
            index,
            next,
            r,
            out,
        ),
        ClientToServer::PowerSwapWithDeck { index } => room.swaps_with_deck(
            pid,
            Power::SwapWithDeck,
            g.seat_index(pid),
            index as int,
            next,
            r,
            out,
        ),
        ClientToServer::PowerSwapWithOpp { my_index, opp_index } => room.trades(
            pid,
            my_index as int,
            opp_index as int,
            next,
            r,
            out,
        ),
        ClientToServer::PowerOppSwapWithDeck { opp_index } => room.swaps_with_deck(
            pid,
            Power::OpponentSwapWithDeck,
            1 - g.seat_index(pid),
            opp_index as int,
            next,
            r,
            out,
        ),
        ClientToServer::EndTurn => room.ends_turn(pid, next, r, out),
    }
}

/// Acts on a message of `pid`. Returns whether the action was taken, and
/// the messages to send. An action that is refused changes nothing and
/// nothing is sent.
pub fn handle_message(room: &mut Room, pid: PlayerId, msg: ClientToServer) -> (r: (
    Result<(), Rejection>,
    Vec<Outbound>,
))
    requires
        old(room)@.wf(),
    ensures
        final(room)@.wf(),
        handles(old(room)@, pid, msg, final(room)@, r.0, sent(r.1@)),
{
    match msg {
        ClientToServer::Ping => {
            let mut out: Vec<Outbound> = Vec::new();
            out.push(Outbound { to: pid, msg: ServerToClient::Pong });
            assert(sent(out@) =~= seq![Sent { to: pid, msg: MsgView::Pong }]);
            (Ok(()), out)
        },
        ClientToServer::Ready => {
            let out = room.on_player_ready(pid);
            (Ok(()), out)
        },
        ClientToServer::DrawDeck => room.handle_draw(pid, DrawSource::Deck),
        ClientToServer::DrawDiscard => room.handle_draw(pid, DrawSource::Discard),
        ClientToServer::SwapWithHand { index } => room.handle_swap_with_hand(pid, index),
        ClientToServer::DiscardDrawn => room.handle_discard_drawn(pid),
        ClientToServer::MatchTop { index } => room.handle_match_top(pid, index),
        ClientToServer::CallZobbo => room.handle_call_zobbo(pid),
        ClientToServer::PowerCheckOwn { index } => room.handle_power_check_own(pid, index),
        ClientToServer::PowerCheckOpp { index } => room.handle_power_check_opp(pid, index),
        ClientToServer::PowerSwapWithDeck { index } => room.handle_power_swap_with_deck(
            pid,
            index,
        ),
        ClientToServer::PowerSwapWithOpp { my_index, opp_index } => {
            room.handle_power_swap_with_opp(pid, my_index, opp_index)
        },
        ClientToServer::PowerOppSwapWithDeck { opp_index } => {
            room.handle_power_opp_swap_with_deck(pid, opp_index)
        },
        ClientToServer::EndTurn => room.handle_end_turn(pid),
    }
}

/// The reply to a text frame that could not be parsed: the parser's
/// complaint, for the sender alone.
pub fn bad_message(pid: PlayerId, complaint: &str) -> (m: Outbound)
    ensures
        m@ == (Sent { to: pid, msg: MsgView::Error { message: "Bad message: "@ + complaint@ } }),
{
    let mut message = String::from_str("Bad message: ");
    message.append(complaint);
    Outbound { to: pid, msg: ServerToClient::Error { message } }
}

/// Acts on a frame read from the connection of `pid`. A message is acted
/// on; a text that is no message is answered with an error and the
/// connection stays open; a close frame ends the connection; any other
/// frame is passed over.
pub fn handle_frame(room: &mut Room, pid: PlayerId, frame: Frame) -> (reply: Reply)
    requires
        old(room)@.wf(),
    ensures
        final(room)@.wf(),
        reply.open == !(frame is Close),
        match frame {
            Frame::Text(Ok(msg)) => handles(
                old(room)@,
                pid,
                msg,
                final(room)@,
                reply.result,
                sent(reply.out@),
            ),
            Frame::Text(Err(complaint)) => final(room)@ == old(room)@ && reply.result is Ok
                && sent(reply.out@) == seq![
                Sent { to: pid, msg: MsgView::Error { message: "Bad message: "@ + complaint@ } },
            ],
            _ => final(room)@ == old(room)@ && reply.result is Ok && reply.out@.len() == 0,
        },
{
    match frame {
        Frame::Text(Ok(msg)) => {
            let (result, out) = handle_message(room, pid, msg);
            Reply { result, out, open: true }
        },
        Frame::Text(Err(complaint)) => {
            let mut out: Vec<Outbound> = Vec::new();
            let m = bad_message(pid, complaint.as_str());
            out.push(m);
            assert(sent(out@) =~= seq![m@]);
            Reply { result: Ok(()), out, open: true }
        },
        Frame::Close => Reply { result: Ok(()), out: Vec::new(), open: false },
        _ => Reply { result: Ok(()), out: Vec::new(), open: true },
    }
}

/// Whether a connection may be opened, if so.
pub open spec fn admission(
    requested: RoomId,
    claims: Option<(RoomId, PlayerId)>,
    room: Option<RoomView>,
) -> Result<PlayerId, RoomError> {
    match claims {
        None => Err(RoomError::InvalidToken),
        Some((token_room, player)) => if token_room != requested {
            Err(RoomError::InvalidToken)
        } else {
            match room {
                None => Err(RoomError::NotFound),
                Some(r) => if r.has_player(player) {
                    Ok(player)
                } else {
                    Err(RoomError::InvalidToken)
                },
            }
        },
    }
}

/// Decides whether a connection to the room `requested` may be opened.
/// `claims` is the room and the player that a verified token names, if the
/// token was valid; `room` is the room found under `requested`, if any.
/// The token must name the room requested, the room must exist, and the
/// player must have joined it.
pub fn authorize(requested: RoomId, claims: Option<(RoomId, PlayerId)>, room: Option<&Room>) -> (r:
    Result<PlayerId, RoomError>)
    requires
        room matches Some(found) ==> found@.wf(),
    ensures
        r == admission(
            requested,
            claims,
            match room {
                Some(r) => Some(r@),
                None => None,
            },
        ),
{
    let (token_room, player) = match claims {
        Some(c) => c,
        None => {
            return Err(RoomError::InvalidToken);
        },
    };
    if token_room != requested {
        return Err(RoomError::InvalidToken);
    }
    match room {
        None => Err(RoomError::NotFound),
        Some(r) => {
            if r.has_player(player) {
                Ok(player)
            } else {
                Err(RoomError::InvalidToken)
            }
        },
    }
}

} // verus!
