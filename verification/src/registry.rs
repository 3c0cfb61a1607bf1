//! A registry of rooms that are entered by token: each room is created
//! with two tokens, one for its creator and one to pass on, and admits two
//! players who show one of them.
//!
//! The rooms are kept in a concurrent map of the `dashmap` crate. What the
//! map holds is known here only through the operations on it, which are
//! taken on trust.

use vstd::prelude::*;
use vstd::string::StrSliceExecFns;
use vstd::string::StringExecFns;
use vstd::utf8::is_ascii_chars;
use dashmap::DashMap;
use rand::distributions::DistString;

verus! {

/// Why a request concerning a room is turned away.
#[derive(Clone, Copy, Debug, PartialEq, Eq, Structural)]
pub enum RoomError {
    /// No room has the identifier given.
    NotFound,
    /// The token is not valid for this room, or names nobody in it.
    InvalidToken,
    /// The room has its two players.
    Full,
}

/// What the creator of a room gets back: the room's identifier, the
/// creator's own token and the one to pass on to the guest.
#[derive(Clone, Debug, PartialEq, Eq)]
pub struct CreatedRoom {
    pub id: String,
    pub creator_token: String,
    pub invite_token: String,
}

/// The form with which a guest joins a room.
#[derive(Clone, Debug, PartialEq, Eq)]
pub struct JoinForm {
    pub token: String,
}

/// The query with which a room's page is asked for.
#[derive(Clone, Debug, PartialEq, Eq)]
pub struct ViewQuery {
    pub token: String,
}

/// The query with which a connection to a room is asked for.
#[derive(Clone, Debug, PartialEq, Eq)]
pub struct WsParams {
    pub room_id: String,
    pub token: String,
}

/// A room of the registry.
#[derive(Clone, Debug, PartialEq, Eq)]
pub struct Room {
    pub id: String,
    /// The tokens that open the room: the creator's, then the guest's.
    pub tokens: Vec<String>,
    /// How many players have joined.
    pub players: usize,
    /// Time of creation, in nanoseconds since the Unix epoch.
    pub created_at: u128,
}

/// View of a [`Room`].
pub struct RoomInfo {
    pub id: Seq<char>,
    pub tokens: Seq<Seq<char>>,
    pub players: nat,
    pub created_at: u128,
}

impl View for Room {
    type V = RoomInfo;

    open spec fn view(&self) -> RoomInfo {
        RoomInfo {
            id: self.id@,
            tokens: Seq::new(self.tokens@.len(), |i: int| self.tokens@[i]@),
            players: self.players as nat,
            created_at: self.created_at,
        }
    }
}

impl RoomInfo {
    /// Whether `token` opens the room.
    pub open spec fn has_token(self, token: Seq<char>) -> bool {
        exists|i: int| 0 <= i < self.tokens.len() && self.tokens[i] == token
    }

    /// The first of the first `n` tokens that is not `token`, if any.
    pub open spec fn other_upto(self, token: Seq<char>, n: int) -> Option<Seq<char>>
        decreases n,
    {
        if n <= 0 {
            None
        } else if self.other_upto(token, n - 1) is Some {
            self.other_upto(token, n - 1)
        } else if self.tokens[n - 1] != token {
            Some(self.tokens[n - 1])
        } else {
            None
        }
    }

    /// The first token of the room that is not `token`, if any.
    pub open spec fn other_token(self, token: Seq<char>) -> Option<Seq<char>> {
        self.other_upto(token, self.tokens.len() as int)
    }
}

/// Whether a room created at `created_at` is younger than `max_age` at
/// `now`, all in nanoseconds. A room from the future is of age zero.
pub open spec fn fresh(created_at: u128, now: u128, max_age: u128) -> bool {
    if now >= created_at {
        now - created_at < max_age
    } else {
        0 < max_age
    }
}

/// Whether a room created at `created_at` is younger than `max_age` at
/// `now`.
pub fn is_fresh(created_at: u128, now: u128, max_age: u128) -> (r: bool)
    ensures
        r == fresh(created_at, now, max_age),
{
    if now >= created_at {
        now - created_at < max_age
    } else {
        0 < max_age
    }
}

impl Room {
    /// Whether `token` opens the room.
    pub fn has_token(&self, token: &str) -> (r: bool)
        ensures
            r == self@.has_token(token@),
    {
        let wanted = String::from_str(token);
        let n = self.tokens.len();
        let mut i: usize = 0;
        while i < n
            invariant
                i <= n,
                n == self.tokens@.len(),
                wanted@ == token@,
                forall|k: int| 0 <= k < i ==> self@.tokens[k] != token@,
            decreases n - i,
        {
            if self.tokens[i] == wanted {
                assert(self@.tokens[i as int] == token@);
                return true;
            }
            i = i + 1;
        }
        false
    }

    /// The first token of the room that is not `token`, if any.
    pub fn other_token(&self, token: &str) -> (r: Option<String>)
        ensures
            match r {
                Some(t) => self@.other_token(token@) == Some(t@),
                None => self@.other_token(token@) is None,
            },
    {
        let given = String::from_str(token);
        let n = self.tokens.len();
        let mut i: usize = 0;
        while i < n
            invariant
                i <= n,
                n == self.tokens@.len(),
                given@ == token@,
                self@.other_upto(token@, i as int) is None,
            decreases n - i,
        {
            if self.tokens[i] != given {
                proof {
                    assert(self@.tokens[i as int] != token@);
                    self@.lemma_other_found(token@, i as int, n as int);
                }
                return Some(self.tokens[i].clone());
            }
            assert(self@.tokens[i as int] == token@);
            i = i + 1;
        }
        None
    }
}

impl RoomInfo {
    /// A token found at position `i` that differs, with none before it that
    /// does, is the other token.
    pub proof fn lemma_other_found(self, token: Seq<char>, i: int, n: int)
        requires
            0 <= i < n,
            self.other_upto(token, i) is None,
            self.tokens[i] != token,
        ensures
            self.other_upto(token, n) == Some(self.tokens[i]),
        decreases n - i,
    {
        if n > i + 1 {
            self.lemma_other_found(token, i, n - 1);
        }
    }
}

/// The concurrent map of the `dashmap` crate.
#[verifier::external_type_specification]
#[verifier::external_body]
#[verifier::reject_recursive_types(K)]
#[verifier::reject_recursive_types(V)]
#[verifier::reject_recursive_types(S)]
pub struct ExDashMap<K, V, S>(DashMap<K, V, S>);

/// The rooms that a map holds, each under its identifier.
pub uninterp spec fn rooms_in(map: DashMap<String, Room>) -> Map<Seq<char>, RoomInfo>;

/// No rooms at all.
pub open spec fn no_rooms() -> Map<Seq<char>, RoomInfo> {
    Map::empty()
}

/// A new map (`DashMap::new`). Claimed of it: it holds no room.
#[verifier::external_body]
fn rooms_new() -> (rooms: DashMap<String, Room>)
    ensures
        rooms_in(rooms) == no_rooms(),
{
    DashMap::new()
}

/// Puts a room under an identifier (`DashMap::insert`). Claimed of it: the
/// map then holds the room under that identifier, in place of any it held
/// there, and everything else as before.
#[verifier::external_body]
fn rooms_insert(map: &mut DashMap<String, Room>, id: String, room: Room)
    ensures
        rooms_in(*final(map)) == rooms_in(*old(map)).insert(id@, room@),
{
    map.insert(id, room);
}

/// Looks a room up (`DashMap::get`) and hands out a copy of it. Claimed of
/// it: the copy is of the room held under the identifier, and there is
/// none exactly if no room is held there.
#[verifier::external_body]
fn rooms_get(map: &DashMap<String, Room>, id: &str) -> (r: Option<Room>)
    ensures
        match r {
            Some(room) => rooms_in(*map).contains_key(id@) && rooms_in(*map)[id@] == room@,
            None => !rooms_in(*map).contains_key(id@),
        },
{
    map.get(id).map(|entry| entry.clone())
}

/// The rooms of `rooms` that are younger than `max_age` at `now`.
pub open spec fn pruned(rooms: Map<Seq<char>, RoomInfo>, now: u128, max_age: u128) -> Map<
    Seq<char>,
    RoomInfo,
> {
    rooms.restrict(
        Set::new(
            |id: Seq<char>| rooms.contains_key(id) && fresh(rooms[id].created_at, now, max_age),
        ),
    )
}

/// Drops the rooms that are not fresh (`DashMap::retain`). Claimed of it:
/// the map then holds exactly the rooms it held that are younger than
/// `max_age` at `now`, unchanged.
#[verifier::external_body]
fn rooms_retain_fresh(map: &mut DashMap<String, Room>, now: u128, max_age: u128)
    ensures
        rooms_in(*final(map)) == pruned(rooms_in(*old(map)), now, max_age),
{
    map.retain(|_, room| is_fresh(room.created_at, now, max_age));
}

/// The characters of a ULID in its text form.
pub open spec fn is_ulid_char(c: char) -> bool {
    ('0' <= c <= '9') || ('A' <= c <= 'Z')
}

/// The letters and digits of ASCII.
pub open spec fn is_alphanumeric(c: char) -> bool {
    ('0' <= c <= '9') || ('A' <= c <= 'Z') || ('a' <= c <= 'z')
}

/// A new ULID in its text form (`ulid::Ulid::new`, then `to_string`).
/// Claimed of it: the text has 26 characters, digits and capital letters
/// all of them. Which ones depends on the time and on chance.
#[verifier::external_body]
fn fresh_ulid() -> (text: String)
    ensures
        text@.len() == 26,
        forall|i: int| 0 <= i < text@.len() ==> is_ulid_char(#[trigger] text@[i]),
{
    ulid::Ulid::new().to_string()
}

/// A random text of `len` letters and digits
/// (`rand::distributions::Alphanumeric.sample_string` on
/// `rand::thread_rng()`). Claimed of it: the text has `len` characters,
/// ASCII letters and digits all of them.
#[verifier::external_body]
fn random_text(len: usize) -> (text: String)
    requires
        len <= 1024,
    ensures
        text@.len() == len,
        forall|i: int| 0 <= i < text@.len() ==> is_alphanumeric(#[trigger] text@[i]),
{
    rand::distributions::Alphanumeric.sample_string(&mut rand::thread_rng(), len)
}

/// Reads the clock (`std::time::SystemTime::now`) as nanoseconds since the
/// Unix epoch (`duration_since`, `as_nanos`); there is no such number for
/// a clock set before the epoch. Nothing is claimed of the result.
#[verifier::external_body]
fn clock_nanos() -> Option<u128> {
    std::time::SystemTime::now().duration_since(std::time::UNIX_EPOCH).ok().map(|d| d.as_nanos())
}

/// The time, in nanoseconds since the Unix epoch; a clock set before the
/// epoch counts as standing at it.
fn now_nanos() -> u128 {
    match clock_nanos() {
        Some(t) => t,
        None => 0,
    }
}

/// A short identifier for a room: the first ten characters of a new ULID.
pub fn new_room_id() -> (id: String)
    ensures
        id@.len() == 10,
        forall|i: int| 0 <= i < id@.len() ==> is_ulid_char(#[trigger] id@[i]),
{
    let text = fresh_ulid();
    assert(is_ascii_chars(text@)) by {
        assert forall|i: int| 0 <= i < text@.len() implies '\0' <= #[trigger] text@[i]
            <= '\u{7f}' by {
            assert(is_ulid_char(text@[i]));
        }
    }
    let head = text.as_str().substring_ascii(0, 10);
    let id = String::from_str(head);
    assert forall|i: int| 0 <= i < id@.len() implies is_ulid_char(#[trigger] id@[i]) by {
        assert(id@[i] == text@[i]);
    }
    id
}

/// A token to join a room with: sixteen random letters and digits.
pub fn new_join_token() -> (token: String)
    ensures
        token@.len() == 16,
        forall|i: int| 0 <= i < token@.len() ==> is_alphanumeric(#[trigger] token@[i]),
{
    random_text(16)
}

/// The rooms of a server, by identifier.
pub struct RoomManager {
    rooms: DashMap<String, Room>,
}

impl View for RoomManager {
    type V = Map<Seq<char>, RoomInfo>;

    closed spec fn view(&self) -> Map<Seq<char>, RoomInfo> {
        rooms_in(self.rooms)
    }
}

/// The room that `create_room` registers.
pub open spec fn new_room(
    id: Seq<char>,
    creator: Seq<char>,
    invite: Seq<char>,
    now: u128,
) -> RoomInfo {
    RoomInfo { id, tokens: seq![creator, invite], players: 0, created_at: now }
}

/// What becomes of a request to join the room `id` of `rooms` with `token`.
pub open spec fn join_verdict(rooms: Map<Seq<char>, RoomInfo>, id: Seq<char>, token: Seq<char>)
    -> Result<(), RoomError> {
    if !rooms.contains_key(id) {
        Err(RoomError::NotFound)
    } else if !rooms[id].has_token(token) {
        Err(RoomError::InvalidToken)
    } else if rooms[id].players >= 2 {
        Err(RoomError::Full)
    } else {
        Ok(())
    }
}

impl RoomManager {
    /// A registry without rooms.
    pub fn new() -> (r: RoomManager)
        ensures
            r@ == no_rooms(),
    {
        RoomManager { rooms: rooms_new() }
    }

    /// Registers a room made at `now` under `id`, to be opened by the two
    /// tokens given, in place of any room of that identifier.
    pub fn create_room_with(&mut self, id: String, creator: String, invite: String, now: u128) -> (r:
        CreatedRoom)
        ensures
            r.id@ == id@,
            r.creator_token@ == creator@,
            r.invite_token@ == invite@,
            final(self)@ == old(self)@.insert(id@, new_room(id@, creator@, invite@, now)),
    {
        let mut tokens: Vec<String> = Vec::with_capacity(2);
        tokens.push(creator.clone());
        tokens.push(invite.clone());
        let room = Room { id: id.clone(), tokens, players: 0, created_at: now };
        assert(room@.tokens =~= seq![creator@, invite@]);
        rooms_insert(&mut self.rooms, id.clone(), room);
        CreatedRoom { id, creator_token: creator, invite_token: invite }
    }

    /// Creates a room with a new identifier and two new tokens.
    pub fn create_room(&mut self) -> (r: CreatedRoom)
        ensures
            r.id@.len() == 10,
            r.creator_token@.len() == 16,
            r.invite_token@.len() == 16,
            exists|now: u128|
                #![trigger new_room(r.id@, r.creator_token@, r.invite_token@, now)]
                final(self)@ == old(self)@.insert(
                    r.id@,
                    new_room(r.id@, r.creator_token@, r.invite_token@, now),
                ),
    {
        let id = new_room_id();
        let creator = new_join_token();
        let invite = new_join_token();
        let now = now_nanos();
        let r = self.create_room_with(id, creator, invite, now);
        assert(self@ == old(self)@.insert(
            r.id@,
            new_room(r.id@, r.creator_token@, r.invite_token@, now),
        ));
        r
    }

    /// A player joins the room `id` with `token`. The room must exist, the
    /// token must be one of its two, and fewer than two players must have
    /// joined before.
    pub fn join_room(&mut self, id: &str, token: &str) -> (r: Result<(), RoomError>)
        ensures
            r == join_verdict(old(self)@, id@, token@),
            r is Err ==> final(self)@ == old(self)@,
            r is Ok ==> final(self)@ == old(self)@.insert(
                id@,
                RoomInfo { players: old(self)@[id@].players + 1, ..old(self)@[id@] },
            ),
    {
        let mut room = match rooms_get(&self.rooms, id) {
            Some(room) => room,
            None => {
                return Err(RoomError::NotFound);
            },
        };
        if !room.has_token(token) {
            return Err(RoomError::InvalidToken);
        }
        if room.players >= 2 {
            return Err(RoomError::Full);
        }
        let ghost before = room@;
        room.players = room.players + 1;
        assert(room@.tokens =~= before.tokens);
        rooms_insert(&mut self.rooms, String::from_str(id), room);
        Ok(())
    }

    /// Whether there is a room `id` that `token` opens.
    pub fn has_token(&self, id: &str, token: &str) -> (r: bool)
        ensures
            r == (self@.contains_key(id@) && self@[id@].has_token(token@)),
    {
        match rooms_get(&self.rooms, id) {
            Some(room) => room.has_token(token),
            None => false,
        }
    }

    /// The first token of the room `id` that is not `token`, if there is
    /// such a room and such a token.
    pub fn other_token(&self, id: &str, token: &str) -> (r: Option<String>)
        ensures
            match r {
                Some(t) => self@.contains_key(id@) && self@[id@].other_token(token@) == Some(t@),
                None => !self@.contains_key(id@) || self@[id@].other_token(token@) is None,
            },
    {
        match rooms_get(&self.rooms, id) {
            Some(room) => room.other_token(token),
            None => None,
        }
    }

    /// Drops the rooms that, at `now`, are `max_age` nanoseconds old or
    /// older.
    pub fn prune_older_than(&mut self, now: u128, max_age: u128)
        ensures
            final(self)@ == pruned(old(self)@, now, max_age),
    {
        rooms_retain_fresh(&mut self.rooms, now, max_age);
    }

    /// Drops the rooms that are `max_age` nanoseconds old or older.
    pub fn prune_old(&mut self, max_age: u128)
        ensures
            exists|now: u128| final(self)@ == #[trigger] pruned(old(self)@, now, max_age),
    {
        let now = now_nanos();
        self.prune_older_than(now, max_age);
    }
}

} // verus!
