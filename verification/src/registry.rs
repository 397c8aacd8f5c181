//! The registry of live sessions, kept by their identifiers.

use crate::error::GameError;
use crate::game::{Game, GameView};
use crate::player::Turn;
use candid::Principal;
use vstd::prelude::*;

verus! {

/// The identifier of the session at position `i` of a list.
pub open spec fn id_at(games: Seq<Game>, i: int) -> Seq<char> {
    games[i]@.session_id
}

/// Whether a list of sessions holds one with the identifier `id`.
pub open spec fn holds_session(games: Seq<Game>, id: Seq<char>) -> bool {
    exists|i: int| 0 <= i < games.len() && #[trigger] id_at(games, i) == id
}

/// A position at which a list of sessions holds the identifier `id`.
pub open spec fn position_of(games: Seq<Game>, id: Seq<char>) -> int {
    choose|i: int| 0 <= i < games.len() && #[trigger] id_at(games, i) == id
}

/// A list of sessions is sound if each session is well-formed and no two
/// of them share an identifier.
pub open spec fn sessions_sound(games: Seq<Game>) -> bool {
    &&& forall|i: int| 0 <= i < games.len() ==> (#[trigger] games[i]).well_formed()
    &&& forall|i: int, j: int|
        0 <= i < j < games.len() ==> #[trigger] id_at(games, i) != #[trigger] id_at(games, j)
}

/// The mapping from identifiers to sessions that a list of sessions stands
/// for.
pub open spec fn sessions_map(games: Seq<Game>) -> Map<Seq<char>, GameView> {
    Map::new(
        |id: Seq<char>| holds_session(games, id),
        |id: Seq<char>| games[position_of(games, id)]@,
    )
}

/// In a sound list, each session is found under its own identifier.
pub proof fn lemma_session_found(games: Seq<Game>, i: int)
    requires
        sessions_sound(games),
        0 <= i < games.len(),
    ensures
        sessions_map(games).contains_key(id_at(games, i)),
        sessions_map(games)[id_at(games, i)] == games[i]@,
{
    let id = id_at(games, i);
    let at = position_of(games, id);
    assert(holds_session(games, id));
    assert(0 <= at < games.len() && id_at(games, at) == id);
    if at < i {
        assert(id_at(games, at) != id_at(games, i));
    } else if i < at {
        assert(id_at(games, i) != id_at(games, at));
    }
}

/// Adding a session with a new identifier to a sound list keeps the list
/// sound and adds one entry to its mapping.
pub proof fn lemma_session_added(games: Seq<Game>, game: Game)
    requires
        sessions_sound(games),
        game.well_formed(),
        !holds_session(games, game@.session_id),
    ensures
        sessions_sound(games.push(game)),
        sessions_map(games.push(game)) == sessions_map(games).insert(game@.session_id, game@),
{
    let grown = games.push(game);
    let last = games.len() as int;
    assert forall|i: int, j: int| 0 <= i < j < grown.len() implies #[trigger] id_at(grown, i)
        != #[trigger] id_at(grown, j) by {
        if j < last {
            assert(id_at(games, i) != id_at(games, j));
        } else {
            assert(id_at(games, i) == id_at(grown, i));
        }
    }
    assert forall|i: int| 0 <= i < grown.len() implies (#[trigger] grown[i]).well_formed() by {
        if i < last {
            assert(games[i].well_formed());
        }
    }
    assert forall|id: Seq<char>|
        holds_session(grown, id) <==> (holds_session(games, id) || id == game@.session_id) by {
        if holds_session(grown, id) {
            let i = position_of(grown, id);
            if i < last {
                assert(id_at(games, i) == id);
            }
        }
        if holds_session(games, id) {
            let i = position_of(games, id);
            assert(id_at(grown, i) == id);
        }
        if id == game@.session_id {
            assert(id_at(grown, last) == id);
        }
    }
    assert forall|id: Seq<char>| holds_session(grown, id) implies #[trigger] sessions_map(
        grown,
    )[id] == sessions_map(games).insert(game@.session_id, game@)[id] by {
        let i = position_of(grown, id);
        lemma_session_found(grown, i);
        if i < last {
            assert(id_at(games, i) == id);
            lemma_session_found(games, i);
        }
    }
    assert(sessions_map(grown) =~= sessions_map(games).insert(game@.session_id, game@));
}

/// Replacing a session of a sound list by one with the same identifier
/// keeps the list sound and replaces one entry of its mapping.
pub proof fn lemma_session_replaced(games: Seq<Game>, i: int, game: Game)
    requires
        sessions_sound(games),
        0 <= i < games.len(),
        game.well_formed(),
        game@.session_id == id_at(games, i),
    ensures
        sessions_sound(games.update(i, game)),
        sessions_map(games.update(i, game)) == sessions_map(games).insert(
            game@.session_id,
            game@,
        ),
{
    let changed = games.update(i, game);
    assert forall|k: int| 0 <= k < changed.len() implies id_at(changed, k) == id_at(games, k) by {}
    assert forall|a: int, b: int| 0 <= a < b < changed.len() implies #[trigger] id_at(changed, a)
        != #[trigger] id_at(changed, b) by {
        assert(id_at(games, a) != id_at(games, b));
    }
    assert forall|k: int| 0 <= k < changed.len() implies (#[trigger] changed[k]).well_formed() by {
        if k != i {
            assert(games[k].well_formed());
        }
    }
    assert forall|id: Seq<char>| holds_session(changed, id) <==> holds_session(games, id) by {
        if holds_session(changed, id) {
            let k = position_of(changed, id);
            assert(id_at(games, k) == id);
        }
        if holds_session(games, id) {
            let k = position_of(games, id);
            assert(id_at(changed, k) == id);
        }
    }
    lemma_session_found(games, i);
    assert forall|id: Seq<char>| holds_session(changed, id) implies #[trigger] sessions_map(
        changed,
    )[id] == sessions_map(games).insert(game@.session_id, game@)[id] by {
        let k = position_of(changed, id);
        lemma_session_found(changed, k);
        assert(id_at(games, k) == id);
        lemma_session_found(games, k);
    }
    assert(sessions_map(changed) =~= sessions_map(games).insert(game@.session_id, game@));
}

/// The live sessions, each under its own identifier.
#[derive(Debug)]
pub struct SessionRegistry {
    games: Vec<Game>,
}

impl View for SessionRegistry {
    type V = Map<Seq<char>, GameView>;

    closed spec fn view(&self) -> Map<Seq<char>, GameView> {
        sessions_map(self.games@)
    }
}

impl Default for SessionRegistry {
    /// A registry without sessions.
    fn default() -> (registry: SessionRegistry)
        ensures
            registry.well_formed(),
            registry@ == Map::<Seq<char>, GameView>::empty(),
    {
        SessionRegistry::new()
    }
}

impl SessionRegistry {
    /// What holds of every registry at rest: its sessions are well-formed,
    /// and no two of them share an identifier.
    pub closed spec fn well_formed(&self) -> bool {
        sessions_sound(self.games@)
    }

    /// In a well-formed registry every session is well-formed and is kept
    /// under its own identifier.
    pub proof fn lemma_entries(&self, id: Seq<char>)
        requires
            self.well_formed(),
            self@.contains_key(id),
        ensures
            self@[id].well_formed(),
            self@[id].session_id == id,
    {
        let i = position_of(self.games@, id);
        assert(id_at(self.games@, i) == id);
        lemma_session_found(self.games@, i);
        assert(self.games@[i].well_formed());
    }

    /// What a read of the session `id` returns: the value of that session,
    /// or `SessionNotFound` where the registry has none under `id`.
    pub open spec fn is_snapshot(&self, id: Seq<char>, snapshot: Result<Game, GameError>) -> bool {
        match snapshot {
            Ok(game) => {
                &&& self@.contains_key(id)
                &&& game@ == self@[id]
                &&& game.well_formed()
            },
            Err(e) => !self@.contains_key(id) && e == GameError::SessionNotFound,
        }
    }

    /// A registry without sessions.
    pub fn new() -> (registry: SessionRegistry)
        ensures
            registry.well_formed(),
            registry@ == Map::<Seq<char>, GameView>::empty(),
    {
        let registry = SessionRegistry { games: Vec::new() };
        assert(registry@ =~= Map::<Seq<char>, GameView>::empty());
        registry
    }

    /// Puts together a registry from stored sessions, if they are
    /// well-formed and no two of them share an identifier.
    pub fn from_games(games: Vec<Game>) -> (registry: Option<SessionRegistry>)
        ensures
            match registry {
                Some(r) => sessions_sound(games@) && r.well_formed() && r@ == sessions_map(
                    games@,
                ),
                None => !sessions_sound(games@),
            },
    {
        let mut i: usize = 0;
        while i < games.len()
            invariant
                i <= games.len(),
                sessions_sound(games@.take(i as int)),
            decreases games.len() - i,
        {
            if !games[i].is_well_formed() {
                return None;
            }
            let mut j: usize = 0;
            while j < i
                invariant
                    j <= i < games.len(),
                    forall|k: int| 0 <= k < j ==> #[trigger] id_at(games@, k) != id_at(games@, i as int),
                decreases i - j,
            {
                if *games[j].session_id() == *games[i].session_id() {
                    assert(id_at(games@, j as int) == id_at(games@, i as int));
                    return None;
                }
                j += 1;
            }
            proof {
                let before = games@.take(i as int);
                let now = games@.take(i + 1);
                assert forall|a: int, b: int| 0 <= a < b < now.len() implies #[trigger] id_at(
                    now,
                    a,
                ) != #[trigger] id_at(now, b) by {
                    if b < i {
                        assert(id_at(before, a) != id_at(before, b));
                    } else {
                        assert(id_at(games@, a) != id_at(games@, i as int));
                    }
                }
                assert forall|k: int| 0 <= k < now.len() implies (#[trigger] now[k]).well_formed() by {
                    if k < i {
                        assert(before[k].well_formed());
                    }
                }
            }
            i += 1;
        }
        assert(games@.take(i as int) =~= games@);
        Some(SessionRegistry { games })
    }

    /// All sessions of the registry, each of them once, in no particular
    /// order.
    pub fn games(&self) -> (games: &Vec<Game>)
        ensures
            sessions_map(games@) == self@,
            self.well_formed() ==> sessions_sound(games@),
    {
        &self.games
    }

    /// The position of the session with the identifier `session_id`.
    fn find(&self, session_id: &String) -> (at: Option<usize>)
        ensures
            match at {
                Some(i) => i < self.games@.len() && id_at(self.games@, i as int) == session_id@,
                None => !holds_session(self.games@, session_id@),
            },
    {
        let mut i: usize = 0;
        while i < self.games.len()
            invariant
                i <= self.games@.len(),
                forall|k: int| 0 <= k < i ==> #[trigger] id_at(self.games@, k) != session_id@,
            decreases self.games@.len() - i,
        {
            if *self.games[i].session_id() == *session_id {
                return Some(i);
            }
            i += 1;
        }
        None
    }

    /// Whether the registry has a session with the identifier `session_id`.
    pub fn contains(&self, session_id: &String) -> (found: bool)
        ensures
            found == self@.contains_key(session_id@),
    {
        self.find(session_id).is_some()
    }

    /// Opens a session under `session_id` for the player `player_id`; the
    /// coin decides who will move first. Gives back the identifier.
    ///
    /// An identifier that is already in use is refused with
    /// `IdGenerationFailed`, and the registry stays as it was.
    pub fn start_game(&mut self, session_id: String, player_id: Principal, heads: bool) -> (id:
        Result<String, GameError>)
        requires
            old(self).well_formed(),
        ensures
            final(self).well_formed(),
            match id {
                Ok(text) => {
                    &&& !old(self)@.contains_key(session_id@)
                    &&& text@ == session_id@
                    &&& final(self)@ == old(self)@.insert(
                        session_id@,
                        GameView::created(
                            session_id@,
                            player_id,
                            Turn::spec_from_coin(heads),
                        ),
                    )
                },
                Err(e) => {
                    &&& old(self)@.contains_key(session_id@)
                    &&& e == GameError::IdGenerationFailed
                    &&& final(self)@ == old(self)@
                },
            },
    {
        if self.find(&session_id).is_some() {
            return Err(GameError::IdGenerationFailed);
        }
        let id = session_id.clone();
        let game = Game::new(session_id, player_id, heads);
        proof {
            lemma_session_added(self.games@, game);
        }
        self.games.push(game);
        Ok(id)
    }

    /// Seats `player_id` as the second player of the session
    /// `session_id`; see `Game::join`. An unknown identifier is refused
    /// with `SessionNotFound`.
    pub fn join_game(&mut self, session_id: &String, player_id: Principal) -> (done: Result<
        (),
        GameError,
    >)
        requires
            old(self).well_formed(),
        ensures
            final(self).well_formed(),
            match done {
                Ok(_) => {
                    &&& old(self)@.contains_key(session_id@)
                    &&& final(self)@ == old(self)@.insert(
                        session_id@,
                        old(self)@[session_id@].joined(player_id),
                    )
                },
                Err(e) => {
                    &&& !old(self)@.contains_key(session_id@)
                    &&& e == GameError::SessionNotFound
                    &&& final(self)@ == old(self)@
                },
            },
    {
        let at = match self.find(session_id) {
            Some(i) => i,
            None => {
                return Err(GameError::SessionNotFound);
            },
        };
        proof {
            lemma_session_found(self.games@, at as int);
        }
        let mut game = self.games[at].clone();
        game.join(player_id);
        proof {
            lemma_session_replaced(self.games@, at as int, game);
        }
        self.games[at] = game;
        Ok(())
    }

    /// Attack in the session `session_id`; see `Game::make_move_opponent`.
    /// An unknown identifier is refused with `SessionNotFound`. A refused
    /// move leaves the registry as it was.
    pub fn make_move_opponent(
        &mut self,
        session_id: &String,
        player_id: Principal,
        hand: u8,
        target_hand: u8,
    ) -> (done: Result<(), GameError>)
        requires
            old(self).well_formed(),
        ensures
            final(self).well_formed(),
            old(self)@.contains_key(session_id@) ==> {
                &&& done == old(self)@[session_id@].attack_verdict(player_id, hand)
                &&& final(self)@ == old(self)@.insert(
                    session_id@,
                    old(self)@[session_id@].attacked(player_id, hand, target_hand),
                )
            },
            !old(self)@.contains_key(session_id@) ==> {
                &&& done == Err::<(), GameError>(GameError::SessionNotFound)
                &&& final(self)@ == old(self)@
            },
            done is Err ==> final(self)@ == old(self)@,
    {
        let at = match self.find(session_id) {
            Some(i) => i,
            None => {
                return Err(GameError::SessionNotFound);
            },
        };
        proof {
            lemma_session_found(self.games@, at as int);
        }
        let mut game = self.games[at].clone();
        let done = game.make_move_opponent(player_id, hand, target_hand);
        proof {
            lemma_session_replaced(self.games@, at as int, game);
            if done is Err {
                assert(self@.insert(session_id@, game@) =~= self@);
            }
        }
        self.games[at] = game;
        done
    }

    /// Redistribution in the session `session_id`; see
    /// `Game::make_move_other_hand`. An unknown identifier is refused with
    /// `SessionNotFound`. A refused move leaves the registry as it was.
    pub fn make_move_other_hand(
        &mut self,
        session_id: &String,
        player_id: Principal,
        current_hand: u8,
        transfer: u8,
    ) -> (done: Result<(), GameError>)
        requires
            old(self).well_formed(),
        ensures
            final(self).well_formed(),
            old(self)@.contains_key(session_id@) ==> {
                &&& done == old(self)@[session_id@].redistribute_verdict(
                    player_id,
                    current_hand,
                    transfer,
                )
                &&& final(self)@ == old(self)@.insert(
                    session_id@,
                    old(self)@[session_id@].redistributed(player_id, current_hand, transfer),
                )
            },
            !old(self)@.contains_key(session_id@) ==> {
                &&& done == Err::<(), GameError>(GameError::SessionNotFound)
                &&& final(self)@ == old(self)@
            },
            done is Err ==> final(self)@ == old(self)@,
    {
        let at = match self.find(session_id) {
            Some(i) => i,
            None => {
                return Err(GameError::SessionNotFound);
            },
        };
        proof {
            lemma_session_found(self.games@, at as int);
        }
        let mut game = self.games[at].clone();
        let done = game.make_move_other_hand(player_id, current_hand, transfer);
        proof {
            lemma_session_replaced(self.games@, at as int, game);
            if done is Err {
                assert(self@.insert(session_id@, game@) =~= self@);
            }
        }
        self.games[at] = game;
        done
    }

    /// A snapshot of the session `session_id`. An unknown identifier is
    /// refused with `SessionNotFound`.
    pub fn get_game_state(&self, session_id: &String) -> (snapshot: Result<Game, GameError>)
        requires
            self.well_formed(),
        ensures
            self.is_snapshot(session_id@, snapshot),
    {
        match self.find(session_id) {
            Some(i) => {
                proof {
                    lemma_session_found(self.games@, i as int);
                }
                Ok(self.games[i].clone())
            },
            None => Err(GameError::SessionNotFound),
        }
    }
}

} // verus!
