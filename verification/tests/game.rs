use zobbo::card::{Card, CardPublic, CardPublicFull, Rank, Suit};
use zobbo::deck::{build_deck, ordered_deck};
use zobbo::game::{has_power, power_allowed, GameState};
use zobbo::message::{
    ClientToServer, GameMode, Outbound, PeekTarget, ServerToClient, SlotPublic, StageName,
};
use zobbo::model::{DrawSource, Power, Rejection, TurnStage, ZobboState};
use zobbo::registry::RoomError;
use zobbo::room::{compose_seat_public, compose_update, Notice, Room};
use zobbo::session::{authorize, bad_message, handle_frame, handle_message, Frame};

const ANN: u128 = 10;
const BOB: u128 = 20;

fn card(rank: Rank, suit: Suit) -> Card {
    Card { rank, suit }
}

fn ann_hand() -> Vec<Card> {
    vec![
        card(Rank::Ace, Suit::Clubs),
        card(Rank::Two, Suit::Clubs),
        card(Rank::Three, Suit::Clubs),
        card(Rank::Four, Suit::Clubs),
        card(Rank::Five, Suit::Clubs),
        card(Rank::Six, Suit::Clubs),
    ]
}

fn bob_hand() -> Vec<Card> {
    vec![
        card(Rank::Ace, Suit::Diamonds),
        card(Rank::Two, Suit::Diamonds),
        card(Rank::Three, Suit::Diamonds),
        card(Rank::Four, Suit::Diamonds),
        card(Rank::Five, Suit::Diamonds),
        card(Rank::Six, Suit::Diamonds),
    ]
}

/// A full deck from which Ann is dealt `ann_hand()`, Bob `bob_hand()`, and
/// whose next cards, top first, are `draws`.
fn arranged(draws: &[Card]) -> Vec<Card> {
    let ann = ann_hand();
    let bob = bob_hand();
    let mut deck: Vec<Card> = ordered_deck()
        .into_iter()
        .filter(|c| !ann.contains(c) && !bob.contains(c) && !draws.contains(c))
        .collect();
    deck.extend(draws.iter().rev().copied());
    deck.extend(bob.iter().rev().copied());
    deck.extend(ann.iter().rev().copied());
    assert_eq!(deck.len(), 52);
    deck
}

/// A room in which Ann and Bob play a match dealt from `arranged(draws)`;
/// Ann moves first.
fn room_in_play(draws: &[Card]) -> Room {
    let mut room = Room::new(1, 1_700_000_000, GameMode::default());
    room.join(ANN, "ann".to_string()).unwrap();
    room.join(BOB, "bob".to_string()).unwrap();
    room.on_connect(ANN);
    room.on_connect(BOB);
    room.on_player_ready_with(ANN, true, Vec::new());
    room.on_player_ready_with(BOB, true, arranged(draws));
    assert!(room.started);
    room
}

fn game(room: &Room) -> &GameState {
    room.game.as_ref().unwrap()
}

fn sorted(mut cards: Vec<Card>) -> Vec<(u8, u8)> {
    let mut keys: Vec<(u8, u8)> = cards.drain(..).map(|c| (c.suit as u8, c.rank as u8)).collect();
    keys.sort();
    keys
}

fn all_cards(g: &GameState) -> Vec<Card> {
    let mut all: Vec<Card> = Vec::new();
    all.extend(g.deck.iter().copied());
    all.extend(g.discard.iter().copied());
    for seat in &g.seats {
        all.extend(seat.seat.slots.iter().flatten().copied());
    }
    if let TurnStage::Holding { card, .. } = g.stage {
        all.push(card);
    }
    all
}

fn on_table(g: &GameState) -> usize {
    g.deck.len()
        + g.discard.len()
        + g.seats.iter().map(|s| s.seat.slots.iter().flatten().count()).sum::<usize>()
}

fn updates_to(out: &[Outbound], who: u128) -> usize {
    out.iter()
        .filter(|m| m.to == who && matches!(m.msg, ServerToClient::GameUpdate { .. }))
        .count()
}

#[test]
fn ordered_deck_is_suit_by_suit() {
    let deck = ordered_deck();
    assert_eq!(deck.len(), 52);
    assert_eq!(deck[0], card(Rank::Ace, Suit::Clubs));
    assert_eq!(deck[12], card(Rank::King, Suit::Clubs));
    assert_eq!(deck[13], card(Rank::Ace, Suit::Diamonds));
    assert_eq!(deck[38], card(Rank::King, Suit::Hearts));
    assert_eq!(deck[51], card(Rank::King, Suit::Spades));
}

#[test]
fn built_deck_has_every_card_once() {
    let deck = build_deck();
    assert_eq!(deck.len(), 52);
    assert_eq!(sorted(deck), sorted(ordered_deck()));
}

#[test]
fn built_deck_is_shuffled() {
    // Four shuffles of 52 cards all leaving the canonical order: not in this universe.
    let canonical = ordered_deck();
    let shuffled = (0..4).any(|_| build_deck() != canonical);
    assert!(shuffled);
}

#[test]
fn deal_gives_top_cards_first() {
    let g = GameState::deal(ordered_deck(), ANN, BOB, BOB).unwrap();
    assert_eq!(g.deck.len(), 40);
    assert!(g.discard.is_empty());
    assert_eq!(g.active, BOB);
    assert_eq!(g.stage, TurnStage::AwaitDraw);
    assert_eq!(g.zobbo, None);
    assert_eq!(g.seats[0].id, ANN);
    assert_eq!(g.seats[1].id, BOB);
    assert_eq!(g.seats[0].seat.slots[0], Some(card(Rank::King, Suit::Spades)));
    assert_eq!(g.seats[0].seat.slots[5], Some(card(Rank::Eight, Suit::Spades)));
    assert_eq!(g.seats[1].seat.slots[0], Some(card(Rank::Seven, Suit::Spades)));
    assert_eq!(g.seats[1].seat.slots[5], Some(card(Rank::Two, Suit::Spades)));
    assert_eq!(g.deck[39], card(Rank::Ace, Suit::Spades));
    assert_eq!(g.seats[0].seat.versions, vec![0u64; 6]);
    assert_eq!(g.seats[1].seat.versions, vec![0u64; 6]);
    assert!(!g.seats[0].skip_next && !g.seats[1].skip_next);
}

#[test]
fn deal_refuses_bad_input() {
    assert!(GameState::deal(ordered_deck(), ANN, ANN, ANN).is_none());
    assert!(GameState::deal(ordered_deck(), ANN, BOB, 30).is_none());
    let short: Vec<Card> = ordered_deck().into_iter().take(11).collect();
    assert!(GameState::deal(short, ANN, BOB, ANN).is_none());
    let twelve: Vec<Card> = ordered_deck().into_iter().take(12).collect();
    let g = GameState::deal(twelve, ANN, BOB, ANN).unwrap();
    assert!(g.deck.is_empty());
}

#[test]
fn ready_by_both_starts_the_game_with_own_peeks() {
    let mut room = Room::new(7, 0, GameMode::SuddenDeath);
    assert_eq!(room.join(ANN, "ann".to_string()), Ok(()));
    assert_eq!(room.join(BOB, "bob".to_string()), Ok(()));
    room.on_connect(ANN);
    room.on_connect(BOB);

    let first = room.on_player_ready_with(ANN, false, arranged(&[]));
    assert!(!room.started);
    assert!(room.game.is_none());
    assert_eq!(first.len(), 2);
    assert!(first.iter().all(|m| matches!(m.msg, ServerToClient::LobbyUpdate { .. })));

    let out = room.on_player_ready_with(BOB, false, arranged(&[]));
    assert!(room.started);
    assert_eq!(game(&room).active, BOB);

    // lobby update, game start, game update for each, then three peeks each
    assert_eq!(out.len(), 12);
    for (i, who) in [ANN, BOB].into_iter().enumerate() {
        assert_eq!(out[i].to, who);
        assert!(matches!(out[i].msg, ServerToClient::LobbyUpdate { .. }));
        assert_eq!(out[2 + i].to, who);
        assert_eq!(
            out[2 + i].msg,
            ServerToClient::GameStart { starting_player: BOB, mode: GameMode::SuddenDeath }
        );
        assert_eq!(out[4 + i].to, who);
        assert!(matches!(out[4 + i].msg, ServerToClient::GameUpdate { .. }));
    }
    let hands = [ann_hand(), bob_hand()];
    for (s, who) in [ANN, BOB].into_iter().enumerate() {
        for k in 0..3 {
            let m = &out[6 + 3 * s + k];
            assert_eq!(m.to, who);
            assert_eq!(
                m.msg,
                ServerToClient::PeekResult {
                    target: PeekTarget::Own,
                    index: k,
                    card: CardPublic { rank: hands[s][k].rank, is_red_king: false },
                }
            );
        }
    }
    assert_eq!(sorted(all_cards(game(&room))), sorted(ordered_deck()));
    assert_eq!(on_table(game(&room)), 52);
}

#[test]
fn ready_through_messages_starts_with_one_of_the_players() {
    let mut room = Room::new(7, 0, GameMode::default());
    room.join(ANN, "ann".to_string()).unwrap();
    room.join(BOB, "bob".to_string()).unwrap();
    room.on_connect(ANN);
    room.on_connect(BOB);
    let (r, _) = handle_message(&mut room, ANN, ClientToServer::Ready);
    assert_eq!(r, Ok(()));
    assert!(!room.started);
    let (r, out) = handle_message(&mut room, BOB, ClientToServer::Ready);
    assert_eq!(r, Ok(()));
    assert!(room.started);
    let g = game(&room);
    assert!(g.active == ANN || g.active == BOB);
    assert_eq!(sorted(all_cards(g)), sorted(ordered_deck()));
    assert_eq!(on_table(g), 52);
    assert_eq!(out.len(), 12);
    // ready again: the match goes on as it is
    let before = g.deck.clone();
    handle_message(&mut room, ANN, ClientToServer::Ready);
    assert_eq!(game(&room).deck, before);
}

#[test]
fn not_ready_unless_both_connected() {
    let mut room = Room::new(7, 0, GameMode::default());
    room.join(ANN, "ann".to_string()).unwrap();
    room.join(BOB, "bob".to_string()).unwrap();
    room.on_connect(ANN);
    room.on_player_ready_with(ANN, true, arranged(&[]));
    let out = room.on_player_ready_with(BOB, true, arranged(&[]));
    assert!(!room.started);
    // only Ann is connected
    assert_eq!(out.len(), 1);
    assert_eq!(out[0].to, ANN);
}

#[test]
fn third_join_is_rejected() {
    let mut room = Room::new(7, 0, GameMode::default());
    assert_eq!(room.join(ANN, "ann".to_string()), Ok(()));
    assert_eq!(room.join(BOB, "bob".to_string()), Ok(()));
    assert_eq!(room.join(30, "eve".to_string()), Err(RoomError::Full));
    assert_eq!(room.players.len(), 2);
    assert!(room.has_player(ANN) && room.has_player(BOB) && !room.has_player(30));
    assert_eq!(room.get_both_ids(), Some((ANN, BOB)));
}

#[test]
fn joining_twice_keeps_one_record() {
    let mut room = Room::new(7, 0, GameMode::default());
    room.join(ANN, "ann".to_string()).unwrap();
    room.on_connect(ANN);
    room.join(ANN, "anna".to_string()).unwrap();
    assert_eq!(room.players.len(), 1);
    assert_eq!(room.players[0].record.name, "anna");
    assert!(!room.players[0].record.connected);
    assert_eq!(room.get_both_ids(), None);
}

#[test]
fn connect_welcomes_after_lobby_update() {
    let mut room = Room::new(7, 0, GameMode::default());
    room.join(ANN, "ann".to_string()).unwrap();
    room.join(BOB, "bob".to_string()).unwrap();
    let out = room.on_connect(ANN);
    assert_eq!(out.len(), 2);
    assert_eq!(out[0].to, ANN);
    match &out[0].msg {
        ServerToClient::LobbyUpdate { lobby } => {
            assert_eq!(lobby.room_id, 7);
            assert_eq!(lobby.players.len(), 2);
            assert_eq!(lobby.players[0].name, "ann");
            assert!(lobby.players[0].connected);
            assert!(!lobby.players[1].connected);
            assert!(!lobby.players[0].ready);
        }
        other => panic!("unexpected {:?}", other),
    }
    match &out[1].msg {
        ServerToClient::Welcome { player_id, lobby } => {
            assert_eq!(*player_id, ANN);
            assert_eq!(lobby.players[1].id, BOB);
        }
        other => panic!("unexpected {:?}", other),
    }
    let out = room.on_connect(BOB);
    assert_eq!(out.len(), 3);
    assert_eq!((out[0].to, out[1].to, out[2].to), (ANN, BOB, BOB));
}

#[test]
fn disconnect_keeps_seat_and_game() {
    let mut room = room_in_play(&[]);
    let deck = game(&room).deck.clone();
    let out = room.on_disconnect(BOB);
    assert_eq!(out.len(), 1);
    assert_eq!(out[0].to, ANN);
    assert!(matches!(out[0].msg, ServerToClient::LobbyUpdate { .. }));
    assert!(room.has_player(BOB));
    assert!(!room.players[1].record.connected);
    assert!(room.players[1].record.ready);
    assert_eq!(game(&room).deck, deck);
    // Bob is told nothing while away
    let (r, out) = room.handle_draw(ANN, DrawSource::Deck);
    assert_eq!(r, Ok(()));
    assert!(out.iter().all(|m| m.to == ANN));
    // and is back in the same seat on return
    let out = room.on_connect(BOB);
    assert_eq!(out.len(), 3);
    assert!(room.players[1].record.connected);
}

#[test]
fn drawn_four_discarded_ends_the_turn() {
    let four = card(Rank::Four, Suit::Spades);
    let mut room = room_in_play(&[four]);
    let (r, out) = handle_message(&mut room, ANN, ClientToServer::DrawDeck);
    assert_eq!(r, Ok(()));
    assert_eq!(game(&room).stage, TurnStage::Holding { card: four, from: DrawSource::Deck });
    assert_eq!(out[0].to, ANN);
    assert_eq!(
        out[0].msg,
        ServerToClient::DrawnCard { card: CardPublic { rank: Rank::Four, is_red_king: false } }
    );
    assert_eq!(out.len(), 3);
    assert_eq!(on_table(game(&room)), 51);

    let (r, out) = handle_message(&mut room, ANN, ClientToServer::DiscardDrawn);
    assert_eq!(r, Ok(()));
    let g = game(&room);
    assert_eq!(g.active, BOB);
    assert_eq!(g.stage, TurnStage::AwaitDraw);
    assert_eq!(g.discard, vec![four]);
    assert_eq!(on_table(g), 52);
    // the state after the discard, then the state after the turn's end
    assert_eq!(out.len(), 4);
    assert_eq!(updates_to(&out, ANN), 2);
    assert_eq!(updates_to(&out, BOB), 2);
    match (&out[0].msg, &out[2].msg) {
        (
            ServerToClient::GameUpdate { update: mid },
            ServerToClient::GameUpdate { update: end },
        ) => {
            assert_eq!(mid.active, ANN);
            assert_eq!(end.active, BOB);
            assert_eq!(end.stage, StageName::AwaitDraw);
            assert_eq!(end.stage.as_str(), "await_draw");
            assert_eq!(end.discard_top, Some(CardPublic { rank: Rank::Four, is_red_king: false }));
            assert_eq!(end.deck_count, 39);
            assert_eq!(end.discard_count, 1);
            assert_eq!(end.zobbo_remaining, None);
        }
        other => panic!("unexpected {:?}", other),
    }
}

#[test]
fn drawn_jack_swaps_with_deck() {
    let jack = card(Rank::Jack, Suit::Spades);
    let next = card(Rank::Nine, Suit::Hearts);
    let mut room = room_in_play(&[jack, next]);
    handle_message(&mut room, ANN, ClientToServer::DrawDeck);
    let (r, out) = handle_message(&mut room, ANN, ClientToServer::DiscardDrawn);
    assert_eq!(r, Ok(()));
    assert_eq!(game(&room).stage, TurnStage::Power { card: jack });
    assert_eq!(game(&room).active, ANN);
    assert_eq!(out.len(), 2);
    match &out[0].msg {
        ServerToClient::GameUpdate { update } => {
            assert_eq!(update.stage, StageName::Power);
            assert_eq!(update.stage.as_str(), "power");
        }
        other => panic!("unexpected {:?}", other),
    }

    let (r, out) =
        handle_message(&mut room, ANN, ClientToServer::PowerSwapWithDeck { index: 0 });
    assert_eq!(r, Ok(()));
    let g = game(&room);
    assert_eq!(g.seats[0].seat.versions, vec![1, 0, 0, 0, 0, 0]);
    assert_eq!(g.seats[0].seat.slots[0], Some(next));
    assert_eq!(*g.deck.last().unwrap(), card(Rank::Ace, Suit::Clubs));
    assert_eq!(g.deck.len(), 39);
    assert_eq!(g.active, BOB);
    assert_eq!(g.stage, TurnStage::AwaitDraw);
    assert_eq!(on_table(g), 52);
    assert_eq!(sorted(all_cards(g)), sorted(ordered_deck()));
    assert_eq!(out.len(), 4);
}

#[test]
fn wrong_match_costs_the_next_turn() {
    let four = card(Rank::Four, Suit::Spades);
    let mut room = room_in_play(&[four, card(Rank::Two, Suit::Hearts)]);
    // Ann discards a four; Bob becomes active. Ann, not active, tries slot 2 (a three).
    handle_message(&mut room, ANN, ClientToServer::DrawDeck);
    handle_message(&mut room, ANN, ClientToServer::DiscardDrawn);
    assert_eq!(game(&room).active, BOB);
    let before = game(&room).seats[0].seat.slots.clone();
    let (r, out) = handle_message(&mut room, ANN, ClientToServer::MatchTop { index: 2 });
    assert_eq!(r, Ok(()));
    let g = game(&room);
    assert_eq!(g.seats[0].seat.slots, before);
    assert_eq!(g.seats[0].seat.versions, vec![0u64; 6]);
    assert!(g.seats[0].skip_next);
    assert!(!g.seats[1].skip_next);
    assert_eq!(g.discard, vec![four]);
    assert_eq!(out.len(), 2);

    // Bob plays his turn; Ann's turn is skipped and Bob stays active.
    handle_message(&mut room, BOB, ClientToServer::DrawDeck);
    handle_message(&mut room, BOB, ClientToServer::DiscardDrawn);
    let g = game(&room);
    assert_eq!(g.active, BOB);
    assert_eq!(g.stage, TurnStage::AwaitDraw);
    assert!(!g.seats[0].skip_next);
    // the debt is paid: after Bob's next turn it is Ann's again
    let (r, _) = handle_message(&mut room, BOB, ClientToServer::EndTurn);
    assert_eq!(r, Ok(()));
    assert_eq!(game(&room).active, ANN);
}

#[test]
fn right_match_discards_the_card() {
    let four = card(Rank::Four, Suit::Spades);
    let mut room = room_in_play(&[four]);
    handle_message(&mut room, ANN, ClientToServer::DrawDeck);
    handle_message(&mut room, ANN, ClientToServer::DiscardDrawn);
    // Ann's slot 3 holds the four of clubs
    let (r, out) = handle_message(&mut room, ANN, ClientToServer::MatchTop { index: 3 });
    assert_eq!(r, Ok(()));
    let g = game(&room);
    assert_eq!(g.seats[0].seat.slots[3], None);
    assert_eq!(g.seats[0].seat.versions, vec![0, 0, 0, 1, 0, 0]);
    assert_eq!(g.discard, vec![four, card(Rank::Four, Suit::Clubs)]);
    assert!(!g.seats[0].skip_next);
    assert_eq!(g.active, BOB);
    assert_eq!(on_table(g), 52);
    assert_eq!(out.len(), 2);
    match &out[1].msg {
        ServerToClient::GameUpdate { update } => {
            assert_eq!(update.opponent.slots[3], SlotPublic { empty: true, version: 1 });
            assert_eq!(update.you.slots[3], SlotPublic { empty: false, version: 0 });
        }
        other => panic!("unexpected {:?}", other),
    }
    // the active player may match too, at no cost of the turn
    let (r, _) = handle_message(&mut room, BOB, ClientToServer::MatchTop { index: 3 });
    assert_eq!(r, Ok(()));
    assert_eq!(game(&room).seats[1].seat.slots[3], None);
    assert_eq!(game(&room).active, BOB);
    // the emptied slot cannot be matched again
    let (r, out) = handle_message(&mut room, BOB, ClientToServer::MatchTop { index: 3 });
    assert_eq!(r, Err(Rejection::EmptySlot));
    assert!(out.is_empty());
}

#[test]
fn match_is_rejected_without_effect() {
    let mut room = room_in_play(&[card(Rank::Four, Suit::Spades)]);
    // nothing discarded yet
    assert_eq!(room.handle_match_top(ANN, 0).0, Err(Rejection::EmptyPile));
    handle_message(&mut room, ANN, ClientToServer::DrawDeck);
    // not while a card is held
    assert_eq!(room.handle_match_top(BOB, 0).0, Err(Rejection::WrongStage));
    handle_message(&mut room, ANN, ClientToServer::DiscardDrawn);
    assert_eq!(room.handle_match_top(ANN, 6).0, Err(Rejection::BadIndex));
    assert_eq!(room.handle_match_top(30, 0).0, Err(Rejection::UnknownPlayer));
    let g = game(&room);
    assert!(!g.seats[0].skip_next && !g.seats[1].skip_next);
    assert_eq!(g.discard.len(), 1);
}

#[test]
fn zobbo_ends_the_game_after_two_turns() {
    let mut room = room_in_play(&[]);
    let (r, out) = handle_message(&mut room, BOB, ClientToServer::CallZobbo);
    assert_eq!(r, Ok(()));
    assert_eq!(game(&room).zobbo, Some(ZobboState { caller: BOB, remaining: 2 }));
    assert_eq!(out.len(), 2);
    match &out[0].msg {
        ServerToClient::GameUpdate { update } => assert_eq!(update.zobbo_remaining, Some(2)),
        other => panic!("unexpected {:?}", other),
    }

    let (_, out) = handle_message(&mut room, ANN, ClientToServer::EndTurn);
    assert_eq!(game(&room).zobbo, Some(ZobboState { caller: BOB, remaining: 1 }));
    assert!(out.iter().all(|m| !matches!(m.msg, ServerToClient::GameOver { .. })));

    let (_, out) = handle_message(&mut room, BOB, ClientToServer::EndTurn);
    assert_eq!(game(&room).zobbo, Some(ZobboState { caller: BOB, remaining: 0 }));
    assert_eq!(out.len(), 4);
    let full = |cards: Vec<Card>| -> Vec<CardPublicFull> {
        cards.into_iter().map(|c| CardPublicFull { rank: c.rank, suit: c.suit }).collect()
    };
    // both hands are ace to six: 21 points each, nobody wins
    assert_eq!(out[2].to, ANN);
    assert_eq!(
        out[2].msg,
        ServerToClient::GameOver {
            your_score: 21,
            opp_score: 21,
            you_cards: full(ann_hand()),
            opp_cards: full(bob_hand()),
            winner: None,
        }
    );
    assert_eq!(out[3].to, BOB);
    assert_eq!(
        out[3].msg,
        ServerToClient::GameOver {
            your_score: 21,
            opp_score: 21,
            you_cards: full(bob_hand()),
            opp_cards: full(ann_hand()),
            winner: None,
        }
    );
}

#[test]
fn lower_score_wins() {
    let king = card(Rank::King, Suit::Spades);
    let mut room = room_in_play(&[king]);
    // Ann swaps the black king (0 points) for her six: 15 against 21.
    handle_message(&mut room, BOB, ClientToServer::CallZobbo);
    handle_message(&mut room, ANN, ClientToServer::DrawDeck);
    let (r, _) = handle_message(&mut room, ANN, ClientToServer::SwapWithHand { index: 5 });
    assert_eq!(r, Ok(()));
    let (_, out) = handle_message(&mut room, BOB, ClientToServer::EndTurn);
    let over: Vec<&Outbound> =
        out.iter().filter(|m| matches!(m.msg, ServerToClient::GameOver { .. })).collect();
    assert_eq!(over.len(), 2);
    match (&over[0].msg, &over[1].msg) {
        (
            ServerToClient::GameOver { your_score: a, opp_score: ab, winner: wa, you_cards, .. },
            ServerToClient::GameOver { your_score: b, opp_score: ba, winner: wb, opp_cards, .. },
        ) => {
            assert_eq!((*a, *ab), (15, 21));
            assert_eq!((*b, *ba), (21, 15));
            assert_eq!(*wa, Some(ANN));
            assert_eq!(*wb, Some(ANN));
            assert_eq!(you_cards, opp_cards);
            assert_eq!(you_cards[5], CardPublicFull { rank: Rank::King, suit: Suit::Spades });
        }
        other => panic!("unexpected {:?}", other),
    }
    let show = game(&room).showdown();
    assert_eq!((show.first_score, show.second_score), (15, 21));
    assert_eq!(show.winner, Some(ANN));
}

#[test]
fn zobbo_is_for_the_waiting_player_before_the_draw() {
    let mut room = room_in_play(&[]);
    assert_eq!(room.handle_call_zobbo(ANN).0, Err(Rejection::OwnTurn));
    assert_eq!(room.handle_call_zobbo(30).0, Err(Rejection::UnknownPlayer));
    handle_message(&mut room, ANN, ClientToServer::DrawDeck);
    assert_eq!(room.handle_call_zobbo(BOB).0, Err(Rejection::WrongStage));
    assert_eq!(game(&room).zobbo, None);
}

#[test]
fn second_zobbo_call_changes_nothing() {
    let mut room = room_in_play(&[]);
    handle_message(&mut room, BOB, ClientToServer::CallZobbo);
    handle_message(&mut room, ANN, ClientToServer::EndTurn);
    // Ann, now waiting, calls too: Bob's call stands, with its countdown
    let (r, _) = handle_message(&mut room, ANN, ClientToServer::CallZobbo);
    assert_eq!(r, Ok(()));
    assert_eq!(game(&room).zobbo, Some(ZobboState { caller: BOB, remaining: 1 }));
}

#[test]
fn only_the_active_player_acts() {
    let jack = card(Rank::Jack, Suit::Spades);
    let mut room = room_in_play(&[jack]);
    let snapshot = format!("{:?}", room);
    for msg in [
        ClientToServer::DrawDeck,
        ClientToServer::DrawDiscard,
        ClientToServer::SwapWithHand { index: 0 },
        ClientToServer::DiscardDrawn,
        ClientToServer::PowerCheckOwn { index: 0 },
        ClientToServer::PowerCheckOpp { index: 0 },
        ClientToServer::PowerSwapWithDeck { index: 0 },
        ClientToServer::PowerSwapWithOpp { my_index: 0, opp_index: 0 },
        ClientToServer::PowerOppSwapWithDeck { opp_index: 0 },
        ClientToServer::EndTurn,
    ] {
        let (r, out) = handle_message(&mut room, BOB, msg);
        assert_eq!(r, Err(Rejection::NotYourTurn), "{:?}", msg);
        assert!(out.is_empty());
        assert_eq!(format!("{:?}", room), snapshot);
    }
    // and in the later stages too
    handle_message(&mut room, ANN, ClientToServer::DrawDeck);
    assert_eq!(room.handle_swap_with_hand(BOB, 0).0, Err(Rejection::NotYourTurn));
    assert_eq!(room.handle_discard_drawn(BOB).0, Err(Rejection::NotYourTurn));
    handle_message(&mut room, ANN, ClientToServer::DiscardDrawn);
    assert_eq!(room.handle_power_swap_with_deck(BOB, 0).0, Err(Rejection::NotYourTurn));
    assert_eq!(room.handle_end_turn(BOB).0, Err(Rejection::NotYourTurn));
    assert!(room.is_active(ANN) && !room.is_active(BOB));
}

#[test]
fn nothing_happens_without_a_game() {
    let mut room = Room::new(7, 0, GameMode::default());
    room.join(ANN, "ann".to_string()).unwrap();
    room.on_connect(ANN);
    for msg in [
        ClientToServer::DrawDeck,
        ClientToServer::SwapWithHand { index: 0 },
        ClientToServer::DiscardDrawn,
        ClientToServer::MatchTop { index: 0 },
        ClientToServer::CallZobbo,
        ClientToServer::PowerCheckOwn { index: 0 },
        ClientToServer::PowerCheckOpp { index: 0 },
        ClientToServer::PowerSwapWithDeck { index: 0 },
        ClientToServer::PowerSwapWithOpp { my_index: 0, opp_index: 0 },
        ClientToServer::PowerOppSwapWithDeck { opp_index: 0 },
        ClientToServer::EndTurn,
    ] {
        let (r, out) = handle_message(&mut room, ANN, msg);
        assert_eq!(r, Err(Rejection::NoGame), "{:?}", msg);
        assert!(out.is_empty());
    }
    assert!(!room.is_active(ANN));
    assert!(room.broadcast_game_update().is_empty());
    assert!(room.reveal_and_finish().is_empty());
    assert!(room.send_initial_peeks().is_empty());
    assert!(room.end_turn_common().is_empty());
    assert!(room.game.is_none());
    assert!(!room.started);
    assert_eq!(room.compose_update_for(ANN), None);
}

#[test]
fn powers_need_their_stage_and_their_card() {
    let seven = card(Rank::Seven, Suit::Spades);
    let mut room = room_in_play(&[seven]);
    // before the draw and while holding: wrong stage
    assert_eq!(room.handle_power_check_own(ANN, 0).0, Err(Rejection::WrongStage));
    handle_message(&mut room, ANN, ClientToServer::DrawDeck);
    assert_eq!(room.handle_power_swap_with_opp(ANN, 0, 0).0, Err(Rejection::WrongStage));
    handle_message(&mut room, ANN, ClientToServer::DiscardDrawn);
    assert_eq!(game(&room).stage, TurnStage::Power { card: seven });
    let snapshot = format!("{:?}", room);
    // a seven lets its player look at an own card, nothing else
    assert_eq!(room.handle_power_check_opp(ANN, 0).0, Err(Rejection::WrongPower));
    assert_eq!(room.handle_power_swap_with_deck(ANN, 0).0, Err(Rejection::WrongPower));
    assert_eq!(room.handle_power_swap_with_opp(ANN, 0, 0).0, Err(Rejection::WrongPower));
    assert_eq!(room.handle_power_opp_swap_with_deck(ANN, 0).0, Err(Rejection::WrongPower));
    assert_eq!(room.handle_power_check_own(ANN, 6).0, Err(Rejection::BadIndex));
    assert_eq!(format!("{:?}", room), snapshot);

    let (r, out) = room.handle_power_check_own(ANN, 4);
    assert_eq!(r, Ok(()));
    assert_eq!(out[0].to, ANN);
    assert_eq!(
        out[0].msg,
        ServerToClient::PeekResult {
            target: PeekTarget::Own,
            index: 4,
            card: CardPublic { rank: Rank::Five, is_red_king: false },
        }
    );
    assert_eq!(PeekTarget::Own.as_str(), "self");
    // then the update for each, and nothing of the card for Bob
    assert_eq!(out.len(), 3);
    assert_eq!(updates_to(&out, ANN), 1);
    assert_eq!(updates_to(&out, BOB), 1);
    assert_eq!(game(&room).active, BOB);
    assert_eq!(game(&room).stage, TurnStage::AwaitDraw);
    // single use: the power stage is over
    assert_eq!(room.handle_power_check_own(ANN, 4).0, Err(Rejection::NotYourTurn));
}

#[test]
fn ten_looks_at_the_opponent() {
    let ten = card(Rank::Ten, Suit::Hearts);
    let mut room = room_in_play(&[ten]);
    handle_message(&mut room, ANN, ClientToServer::DrawDeck);
    handle_message(&mut room, ANN, ClientToServer::DiscardDrawn);
    assert_eq!(room.handle_power_check_own(ANN, 0).0, Err(Rejection::WrongPower));
    let (r, out) = handle_message(&mut room, ANN, ClientToServer::PowerCheckOpp { index: 5 });
    assert_eq!(r, Ok(()));
    assert_eq!(
        out[0],
        Outbound {
            to: ANN,
            msg: ServerToClient::PeekResult {
                target: PeekTarget::Opponent,
                index: 5,
                card: CardPublic { rank: Rank::Six, is_red_king: false },
            },
        }
    );
    assert_eq!(PeekTarget::Opponent.as_str(), "opponent");
    assert_eq!(game(&room).active, BOB);
    assert_eq!(on_table(game(&room)), 52);
}

#[test]
fn queen_trades_cards() {
    let queen = card(Rank::Queen, Suit::Spades);
    let mut room = room_in_play(&[queen]);
    handle_message(&mut room, ANN, ClientToServer::DrawDeck);
    handle_message(&mut room, ANN, ClientToServer::DiscardDrawn);
    let (r, out) = handle_message(
        &mut room,
        ANN,
        ClientToServer::PowerSwapWithOpp { my_index: 1, opp_index: 4 },
    );
    assert_eq!(r, Ok(()));
    let g = game(&room);
    assert_eq!(g.seats[0].seat.slots[1], Some(card(Rank::Five, Suit::Diamonds)));
    assert_eq!(g.seats[1].seat.slots[4], Some(card(Rank::Two, Suit::Clubs)));
    assert_eq!(g.seats[0].seat.versions, vec![0, 1, 0, 0, 0, 0]);
    assert_eq!(g.seats[1].seat.versions, vec![0, 0, 0, 0, 1, 0]);
    assert_eq!(g.active, BOB);
    assert_eq!(sorted(all_cards(g)), sorted(ordered_deck()));
    assert_eq!(out.len(), 4);
}

#[test]
fn failed_trade_leaves_both_seats_as_found() {
    let queen = card(Rank::Queen, Suit::Spades);
    let four = card(Rank::Four, Suit::Spades);
    let mut room = room_in_play(&[four, card(Rank::Two, Suit::Spades), queen]);
    // Ann discards a four, Bob matches with his four: his slot 3 is empty.
    handle_message(&mut room, ANN, ClientToServer::DrawDeck);
    handle_message(&mut room, ANN, ClientToServer::DiscardDrawn);
    handle_message(&mut room, BOB, ClientToServer::MatchTop { index: 3 });
    handle_message(&mut room, BOB, ClientToServer::DrawDeck);
    handle_message(&mut room, BOB, ClientToServer::DiscardDrawn);
    handle_message(&mut room, ANN, ClientToServer::DrawDeck);
    handle_message(&mut room, ANN, ClientToServer::DiscardDrawn);
    assert_eq!(game(&room).stage, TurnStage::Power { card: queen });
    let snapshot = format!("{:?}", room);
    for (mine, theirs, why) in [
        (0, 3, Rejection::EmptySlot),
        (0, 6, Rejection::BadIndex),
        (6, 0, Rejection::BadIndex),
        (9, 3, Rejection::BadIndex),
    ] {
        let (r, out) = room.handle_power_swap_with_opp(ANN, mine, theirs);
        assert_eq!(r, Err(why));
        assert!(out.is_empty());
        assert_eq!(format!("{:?}", room), snapshot);
    }
    // the power is still there to be used
    assert_eq!(room.handle_power_swap_with_opp(ANN, 0, 0).0, Ok(()));
}

#[test]
fn red_king_swaps_the_opponents_card_with_the_deck() {
    let king = card(Rank::King, Suit::Hearts);
    let next = card(Rank::Nine, Suit::Spades);
    let mut room = room_in_play(&[king, next]);
    handle_message(&mut room, ANN, ClientToServer::DrawDeck);
    handle_message(&mut room, ANN, ClientToServer::DiscardDrawn);
    assert_eq!(game(&room).stage, TurnStage::Power { card: king });
    assert_eq!(room.handle_power_swap_with_deck(ANN, 0).0, Err(Rejection::WrongPower));
    let (r, _) =
        handle_message(&mut room, ANN, ClientToServer::PowerOppSwapWithDeck { opp_index: 2 });
    assert_eq!(r, Ok(()));
    let g = game(&room);
    assert_eq!(g.seats[1].seat.slots[2], Some(next));
    assert_eq!(g.seats[1].seat.versions, vec![0, 0, 1, 0, 0, 0]);
    assert_eq!(g.seats[0].seat.versions, vec![0u64; 6]);
    assert_eq!(*g.deck.last().unwrap(), card(Rank::Three, Suit::Diamonds));
    assert_eq!(g.active, BOB);
    assert_eq!(sorted(all_cards(g)), sorted(ordered_deck()));
}

#[test]
fn black_king_and_cards_from_the_discard_grant_nothing() {
    let black = card(Rank::King, Suit::Clubs);
    let jack = card(Rank::Jack, Suit::Hearts);
    let mut room = room_in_play(&[black, jack]);
    handle_message(&mut room, ANN, ClientToServer::DrawDeck);
    handle_message(&mut room, ANN, ClientToServer::DiscardDrawn);
    assert_eq!(game(&room).stage, TurnStage::AwaitDraw);
    assert_eq!(game(&room).active, BOB);
    // Bob draws the jack from the deck and discards it: power
    handle_message(&mut room, BOB, ClientToServer::DrawDeck);
    handle_message(&mut room, BOB, ClientToServer::DiscardDrawn);
    assert_eq!(game(&room).stage, TurnStage::Power { card: jack });
    handle_message(&mut room, BOB, ClientToServer::EndTurn);
    // Ann takes the jack from the discard pile and discards it again: no power
    let (r, out) = handle_message(&mut room, ANN, ClientToServer::DrawDiscard);
    assert_eq!(r, Ok(()));
    assert_eq!(
        out[0].msg,
        ServerToClient::DrawnCard { card: CardPublic { rank: Rank::Jack, is_red_king: false } }
    );
    assert_eq!(game(&room).stage, TurnStage::Holding { card: jack, from: DrawSource::Discard });
    assert_eq!(game(&room).discard, vec![black]);
    handle_message(&mut room, ANN, ClientToServer::DiscardDrawn);
    assert_eq!(game(&room).stage, TurnStage::AwaitDraw);
    assert_eq!(game(&room).active, BOB);
    assert_eq!(game(&room).discard, vec![black, jack]);
}

#[test]
fn power_cards_are_five_to_queen_and_the_red_kings() {
    let powerful = [
        Rank::Five,
        Rank::Six,
        Rank::Seven,
        Rank::Eight,
        Rank::Nine,
        Rank::Ten,
        Rank::Jack,
        Rank::Queen,
    ];
    for c in ordered_deck() {
        let expected = powerful.contains(&c.rank) || (c.rank == Rank::King && c.suit.is_red());
        assert_eq!(has_power(&c), expected, "{:?}", c);
        let any = [
            Power::CheckOwn,
            Power::CheckOpponent,
            Power::SwapWithDeck,
            Power::SwapWithOpponent,
            Power::OpponentSwapWithDeck,
        ]
        .iter()
        .filter(|p| power_allowed(&c, **p))
        .count();
        assert_eq!(any, if expected { 1 } else { 0 }, "{:?}", c);
    }
    assert!(power_allowed(&card(Rank::Eight, Suit::Clubs), Power::CheckOwn));
    assert!(power_allowed(&card(Rank::Nine, Suit::Clubs), Power::CheckOpponent));
    assert!(power_allowed(&card(Rank::Jack, Suit::Clubs), Power::SwapWithDeck));
    assert!(power_allowed(&card(Rank::Queen, Suit::Clubs), Power::SwapWithOpponent));
    assert!(power_allowed(&card(Rank::King, Suit::Diamonds), Power::OpponentSwapWithDeck));
    assert!(!power_allowed(&card(Rank::King, Suit::Spades), Power::OpponentSwapWithDeck));
}

#[test]
fn swap_with_hand_discards_the_replaced_card() {
    let nine = card(Rank::Nine, Suit::Spades);
    let mut room = room_in_play(&[nine]);
    assert_eq!(room.handle_swap_with_hand(ANN, 0).0, Err(Rejection::WrongStage));
    handle_message(&mut room, ANN, ClientToServer::DrawDeck);
    assert_eq!(room.handle_swap_with_hand(ANN, 6).0, Err(Rejection::BadIndex));
    assert_eq!(room.handle_draw(ANN, DrawSource::Deck).0, Err(Rejection::WrongStage));
    let (r, out) = handle_message(&mut room, ANN, ClientToServer::SwapWithHand { index: 2 });
    assert_eq!(r, Ok(()));
    let g = game(&room);
    assert_eq!(g.seats[0].seat.slots[2], Some(nine));
    assert_eq!(g.seats[0].seat.versions, vec![0, 0, 1, 0, 0, 0]);
    assert_eq!(g.discard, vec![card(Rank::Three, Suit::Clubs)]);
    // a nine swapped in grants no power: the turn is over
    assert_eq!(g.stage, TurnStage::AwaitDraw);
    assert_eq!(g.active, BOB);
    assert_eq!(on_table(g), 52);
    assert_eq!(out.len(), 4);
}

#[test]
fn swap_into_an_empty_slot_is_refused() {
    let four = card(Rank::Four, Suit::Spades);
    let mut room = room_in_play(&[four, card(Rank::Two, Suit::Spades), card(Rank::Two, Suit::Hearts)]);
    handle_message(&mut room, ANN, ClientToServer::DrawDeck);
    handle_message(&mut room, ANN, ClientToServer::DiscardDrawn);
    handle_message(&mut room, ANN, ClientToServer::MatchTop { index: 3 });
    handle_message(&mut room, BOB, ClientToServer::EndTurn);
    handle_message(&mut room, ANN, ClientToServer::DrawDeck);
    let (r, out) = handle_message(&mut room, ANN, ClientToServer::SwapWithHand { index: 3 });
    assert_eq!(r, Err(Rejection::EmptySlot));
    assert!(out.is_empty());
    assert!(matches!(game(&room).stage, TurnStage::Holding { .. }));
}

#[test]
fn drawing_from_empty_piles_is_refused() {
    let mut room = room_in_play(&[]);
    assert_eq!(room.handle_draw(ANN, DrawSource::Discard).0, Err(Rejection::EmptyPile));
    room.game.as_mut().unwrap().deck.clear();
    assert_eq!(room.handle_draw(ANN, DrawSource::Deck).0, Err(Rejection::EmptyPile));
    // one discarded card is not enough to rebuild the deck from
    room.game.as_mut().unwrap().discard.push(card(Rank::Ten, Suit::Spades));
    let (r, out) = room.handle_draw(ANN, DrawSource::Deck);
    assert_eq!(r, Err(Rejection::EmptyPile));
    assert!(out.is_empty());
    assert_eq!(game(&room).discard.len(), 1);
    assert_eq!(game(&room).stage, TurnStage::AwaitDraw);
}

#[test]
fn empty_deck_is_rebuilt_from_the_discard_pile() {
    let mut room = room_in_play(&[]);
    {
        let g = room.game.as_mut().unwrap();
        let mut pile: Vec<Card> = g.deck.drain(..).collect();
        g.discard.append(&mut pile);
    }
    let before = game(&room).discard.clone();
    let top = *before.last().unwrap();
    let (r, out) = room.handle_draw(ANN, DrawSource::Deck);
    assert_eq!(r, Ok(()));
    let g = game(&room);
    assert_eq!(g.discard, vec![top]);
    assert_eq!(g.deck.len(), 38);
    let held = match g.stage {
        TurnStage::Holding { card, from: DrawSource::Deck } => card,
        other => panic!("unexpected {:?}", other),
    };
    assert_ne!(held, top);
    assert!(before.contains(&held));
    assert_eq!(sorted(all_cards(g)), sorted(ordered_deck()));
    match &out[1].msg {
        ServerToClient::GameUpdate { update } => {
            assert_eq!(update.deck_count, 38);
            assert_eq!(update.discard_count, 1);
            assert_eq!(update.stage.as_str(), "holding");
        }
        other => panic!("unexpected {:?}", other),
    }
}

#[test]
fn ensure_deck_leaves_a_usable_deck_alone() {
    let mut g = GameState::deal(ordered_deck(), ANN, BOB, ANN).unwrap();
    g.discard.push(g.deck.pop().unwrap());
    g.discard.push(g.deck.pop().unwrap());
    let deck = g.deck.clone();
    g.ensure_deck();
    assert_eq!(g.deck, deck);
    assert_eq!(g.discard.len(), 2);
    assert_eq!(g.draw_from_deck(), Some(*deck.last().unwrap()));
}

#[test]
fn jack_with_no_deck_moves_nothing() {
    let jack = card(Rank::Jack, Suit::Spades);
    let mut room = room_in_play(&[jack]);
    handle_message(&mut room, ANN, ClientToServer::DrawDeck);
    handle_message(&mut room, ANN, ClientToServer::DiscardDrawn);
    room.game.as_mut().unwrap().deck.clear();
    let (r, out) = room.handle_power_swap_with_deck(ANN, 0);
    assert_eq!(r, Ok(()));
    let g = game(&room);
    assert_eq!(g.seats[0].seat.slots[0], Some(card(Rank::Ace, Suit::Clubs)));
    assert_eq!(g.seats[0].seat.versions, vec![0u64; 6]);
    assert!(g.deck.is_empty());
    assert_eq!(g.active, BOB);
    assert_eq!(out.len(), 4);
}

#[test]
fn jack_on_an_empty_slot_only_ends_the_turn() {
    let four = card(Rank::Four, Suit::Spades);
    let jack = card(Rank::Jack, Suit::Spades);
    let mut room = room_in_play(&[four, card(Rank::Two, Suit::Spades), jack]);
    handle_message(&mut room, ANN, ClientToServer::DrawDeck);
    handle_message(&mut room, ANN, ClientToServer::DiscardDrawn);
    handle_message(&mut room, ANN, ClientToServer::MatchTop { index: 3 });
    handle_message(&mut room, BOB, ClientToServer::DrawDeck);
    handle_message(&mut room, BOB, ClientToServer::DiscardDrawn);
    handle_message(&mut room, ANN, ClientToServer::DrawDeck);
    handle_message(&mut room, ANN, ClientToServer::DiscardDrawn);
    assert_eq!(game(&room).stage, TurnStage::Power { card: jack });
    let deck = game(&room).deck.clone();
    assert_eq!(room.handle_power_swap_with_deck(ANN, 6).0, Err(Rejection::BadIndex));
    let (r, _) = room.handle_power_swap_with_deck(ANN, 3);
    assert_eq!(r, Ok(()));
    let g = game(&room);
    assert_eq!(g.seats[0].seat.slots[3], None);
    assert_eq!(g.seats[0].seat.versions, vec![0, 0, 0, 1, 0, 0]);
    assert_eq!(g.deck, deck);
    assert_eq!(g.active, BOB);
}

#[test]
fn turn_cannot_be_ended_with_a_card_in_hand() {
    let four = card(Rank::Four, Suit::Spades);
    let mut room = room_in_play(&[four]);
    handle_message(&mut room, ANN, ClientToServer::DrawDeck);
    let snapshot = format!("{:?}", room);
    let (r, out) = handle_message(&mut room, ANN, ClientToServer::EndTurn);
    assert_eq!(r, Err(Rejection::WrongStage));
    assert!(out.is_empty());
    assert_eq!(format!("{:?}", room), snapshot);
    let g = game(&room);
    assert_eq!(g.stage, TurnStage::Holding { card: four, from: DrawSource::Deck });
    assert_eq!(g.active, ANN);
    assert_eq!(sorted(all_cards(g)), sorted(ordered_deck()));
    // once the card is discarded the turn is over anyway
    assert_eq!(handle_message(&mut room, ANN, ClientToServer::DiscardDrawn).0, Ok(()));
    assert_eq!(game(&room).active, BOB);
    // before the draw, and with a power unused, the turn may be given up
    assert_eq!(handle_message(&mut room, BOB, ClientToServer::EndTurn).0, Ok(()));
    assert_eq!(game(&room).active, ANN);
}

#[test]
fn turn_end_puts_a_held_card_on_the_discard_pile() {
    let mut g = GameState::deal(ordered_deck(), ANN, BOB, ANN).unwrap();
    let held = g.draw(ANN, DrawSource::Deck).unwrap();
    assert_eq!(g.end_turn_rejection(ANN), Some(Rejection::WrongStage));
    assert_eq!(g.end_turn_rejection(BOB), Some(Rejection::NotYourTurn));
    let done = g.end_turn_common();
    assert!(!done);
    assert_eq!(g.discard, vec![held]);
    assert_eq!(g.stage, TurnStage::AwaitDraw);
    assert_eq!(g.active, BOB);
    assert_eq!(g.end_turn_rejection(BOB), None);
    assert_eq!(sorted(all_cards(&g)), sorted(ordered_deck()));
    assert_eq!(on_table(&g), 52);
}

#[test]
fn game_over_is_told_once() {
    let mut room = room_in_play(&[]);
    handle_message(&mut room, BOB, ClientToServer::CallZobbo);
    let mut told = Vec::new();
    for who in [ANN, BOB, ANN, BOB, ANN] {
        let (r, out) = handle_message(&mut room, who, ClientToServer::EndTurn);
        assert_eq!(r, Ok(()));
        assert_eq!(updates_to(&out, ANN), 1);
        assert_eq!(updates_to(&out, BOB), 1);
        told.push(
            out.iter().filter(|m| matches!(m.msg, ServerToClient::GameOver { .. })).count(),
        );
    }
    assert_eq!(told, vec![0, 2, 0, 0, 0]);
    // the countdown stays at zero
    assert_eq!(game(&room).zobbo, Some(ZobboState { caller: BOB, remaining: 0 }));
    let mut g = GameState::deal(ordered_deck(), ANN, BOB, ANN).unwrap();
    g.call_zobbo(BOB).unwrap();
    assert_eq!(
        [g.end_turn_common(), g.end_turn_common(), g.end_turn_common(), g.end_turn_common()],
        [false, true, false, false]
    );
}

#[test]
fn version_counter_wraps() {
    let nine = card(Rank::Nine, Suit::Spades);
    let mut room = room_in_play(&[nine]);
    room.game.as_mut().unwrap().seats[0].seat.versions[1] = u64::MAX;
    handle_message(&mut room, ANN, ClientToServer::DrawDeck);
    handle_message(&mut room, ANN, ClientToServer::SwapWithHand { index: 1 });
    assert_eq!(game(&room).seats[0].seat.versions[1], 0);
}

#[test]
fn updates_hide_the_cards() {
    let room = room_in_play(&[]);
    let g = game(&room);
    let u = compose_update(g, BOB).unwrap();
    assert_eq!(u.you.slots, vec![SlotPublic { empty: false, version: 0 }; 6]);
    assert_eq!(u.opponent.slots, vec![SlotPublic { empty: false, version: 0 }; 6]);
    assert_eq!(u.active, ANN);
    assert_eq!(u.stage, StageName::AwaitDraw);
    assert_eq!(u.discard_top, None);
    assert_eq!(u.deck_count, 40);
    assert_eq!(u.discard_count, 0);
    assert!(compose_update(g, 30).is_none());
    assert_eq!(g.opponent_of(ANN), Some(BOB));
    assert_eq!(g.opponent_of(30), None);
    assert_eq!(g.next_player(), BOB);
    assert_eq!(g.seat_index(BOB), Some(1));
}

#[test]
fn seat_public_pairs_slots_with_versions() {
    let mut g = GameState::deal(ordered_deck(), ANN, BOB, ANN).unwrap();
    g.seats[0].seat.slots[2] = None;
    g.seats[0].seat.versions[2] = 5;
    let p = compose_seat_public(&g.seats[0].seat);
    assert_eq!(p.slots.len(), 6);
    assert_eq!(p.slots[2], SlotPublic { empty: true, version: 5 });
    assert_eq!(p.slots[0], SlotPublic { empty: false, version: 0 });
    g.seats[0].seat.versions.truncate(4);
    assert_eq!(compose_seat_public(&g.seats[0].seat).slots.len(), 4);
}

#[test]
fn broadcast_reaches_the_connected() {
    let mut room = room_in_play(&[]);
    let out = room.broadcast(Notice::Start { starting_player: ANN });
    assert_eq!(out.len(), 2);
    assert_eq!(
        out[1],
        Outbound {
            to: BOB,
            msg: ServerToClient::GameStart {
                starting_player: ANN,
                mode: GameMode::ZobboBattle { rounds: 3 },
            },
        }
    );
    room.on_disconnect(ANN);
    assert_eq!(room.broadcast(Notice::Lobby).len(), 1);
    assert!(room.send_to(ANN, ServerToClient::Pong).is_empty());
    assert!(room.send_to(30, ServerToClient::Pong).is_empty());
    assert_eq!(room.send_to(BOB, ServerToClient::Pong).len(), 1);
    assert_eq!(room.send_initial_peeks().len(), 3);
    assert_eq!(room.reveal_and_finish().len(), 1);
}

#[test]
fn ping_is_answered() {
    let mut room = Room::new(7, 0, GameMode::default());
    let (r, out) = handle_message(&mut room, ANN, ClientToServer::Ping);
    assert_eq!(r, Ok(()));
    assert_eq!(out, vec![Outbound { to: ANN, msg: ServerToClient::Pong }]);
}

#[test]
fn frames_are_sorted_out() {
    let mut room = room_in_play(&[]);
    let reply = handle_frame(&mut room, ANN, Frame::Text(Ok(ClientToServer::DrawDeck)));
    assert!(reply.open);
    assert_eq!(reply.result, Ok(()));
    assert_eq!(reply.out.len(), 3);

    let reply = handle_frame(&mut room, ANN, Frame::Text(Err("expected value".to_string())));
    assert!(reply.open);
    assert_eq!(
        reply.out,
        vec![Outbound {
            to: ANN,
            msg: ServerToClient::Error { message: "Bad message: expected value".to_string() },
        }]
    );
    assert_eq!(bad_message(BOB, "eh").to, BOB);

    for frame in [Frame::Binary, Frame::Ping, Frame::Pong] {
        let reply = handle_frame(&mut room, ANN, frame);
        assert!(reply.open);
        assert!(reply.out.is_empty());
    }
    let reply = handle_frame(&mut room, ANN, Frame::Close);
    assert!(!reply.open);
    assert!(reply.out.is_empty());
    assert!(matches!(game(&room).stage, TurnStage::Holding { .. }));
}

#[test]
fn connections_are_authorized() {
    let mut room = Room::new(7, 0, GameMode::default());
    room.join(ANN, "ann".to_string()).unwrap();
    assert_eq!(authorize(7, Some((7, ANN)), Some(&room)), Ok(ANN));
    assert_eq!(authorize(7, None, Some(&room)), Err(RoomError::InvalidToken));
    assert_eq!(authorize(7, Some((8, ANN)), Some(&room)), Err(RoomError::InvalidToken));
    assert_eq!(authorize(7, Some((7, ANN)), None), Err(RoomError::NotFound));
    assert_eq!(authorize(7, Some((7, BOB)), Some(&room)), Err(RoomError::InvalidToken));
}

#[test]
fn start_game_needs_both_players() {
    let mut room = Room::new(7, 0, GameMode::default());
    room.join(ANN, "ann".to_string()).unwrap();
    assert!(!room.start_game(ANN));
    assert!(room.game.is_none());
    room.join(BOB, "bob".to_string()).unwrap();
    assert!(!room.start_game(30));
    assert!(!room.start_game_with(ANN, Vec::new()));
    assert!(!room.started);
    assert!(room.start_game(BOB));
    assert!(room.started);
    let g = game(&room);
    assert_eq!(g.active, BOB);
    assert_eq!(g.deck.len(), 40);
    assert_eq!(sorted(all_cards(g)), sorted(ordered_deck()));
}

#[test]
fn cards_are_conserved_through_a_game() {
    let mut room = room_in_play(&[
        card(Rank::Jack, Suit::Spades),
        card(Rank::Queen, Suit::Hearts),
        card(Rank::King, Suit::Diamonds),
        card(Rank::Seven, Suit::Hearts),
        card(Rank::Ten, Suit::Clubs),
        card(Rank::Two, Suit::Spades),
    ]);
    let script = [
        (ANN, ClientToServer::DrawDeck),
        (ANN, ClientToServer::DiscardDrawn),
        (ANN, ClientToServer::PowerSwapWithDeck { index: 1 }),
        (BOB, ClientToServer::DrawDeck),
        (BOB, ClientToServer::DiscardDrawn),
        (ANN, ClientToServer::DrawDeck),
        (ANN, ClientToServer::DiscardDrawn),
        (ANN, ClientToServer::PowerOppSwapWithDeck { opp_index: 0 }),
        (BOB, ClientToServer::DrawDiscard),
        (BOB, ClientToServer::SwapWithHand { index: 4 }),
        (ANN, ClientToServer::MatchTop { index: 4 }),
        (BOB, ClientToServer::CallZobbo),
        (ANN, ClientToServer::DrawDeck),
        (ANN, ClientToServer::DiscardDrawn),
        (BOB, ClientToServer::DrawDeck),
        (BOB, ClientToServer::DiscardDrawn),
        (BOB, ClientToServer::PowerCheckOpp { index: 0 }),
    ];
    for (who, msg) in script {
        let (r, _) = handle_message(&mut room, who, msg);
        assert_eq!(r, Ok(()), "{:?}", msg);
        let g = game(&room);
        assert_eq!(sorted(all_cards(g)), sorted(ordered_deck()), "{:?}", msg);
        let held = matches!(g.stage, TurnStage::Holding { .. });
        assert_eq!(on_table(g), if held { 51 } else { 52 }, "{:?}", msg);
    }
    let g = game(&room);
    assert_eq!(g.zobbo, Some(ZobboState { caller: BOB, remaining: 0 }));
    assert_eq!(g.seats[0].seat.slots[1], Some(card(Rank::Queen, Suit::Hearts)));
    assert_eq!(g.seats[0].seat.slots[4], None);
    assert_eq!(g.seats[1].seat.slots[0], Some(card(Rank::Seven, Suit::Hearts)));
    assert_eq!(g.seats[1].seat.slots[4], Some(card(Rank::King, Suit::Diamonds)));
}
