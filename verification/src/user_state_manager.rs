//! The Session State Coordinator: the authoritative map from connection to
//! session state, and the per-player game-state histories.
//!
//! Every operation arrives as a message and is processed by this singleton
//! one at a time; each message is a method call here, so serializing the
//! calls — the mailbox's job — is the caller's obligation.

use vstd::prelude::*;
use crate::assoc::{
    keys_unique, kv_map_of, lemma_kv_dom, lemma_kv_index, lemma_kv_push, lemma_kv_remove,
    lemma_kv_update, lemma_map_values_insert, lemma_map_values_remove,
};
use crate::communication::{
    CheckExistingConnection, DeleteState, Disconnect, GameState, GetState, RegisterWebSocket,
    SetState, TransitionEvent, UpdateState,
};
use crate::ids::{ConnectionId, PlayerId};
use crate::multiplayer_error::ServiceError;
use crate::ringbuffer::RingBuffer;
use crate::user_state::{player_of, spec_transition, UserEvent, UserState};

verus! {

/// Whether some registered connection currently represents `pid`.
pub open spec fn has_player(m: Map<ConnectionId, UserState>, pid: PlayerId) -> bool {
    exists|c: ConnectionId| #[trigger] m.dom().contains(c) && player_of(m[c]) == pid
}

/// The registry after one `Transition` message: a login for a player who is
/// already represented is refused; an unknown connection is dropped; else the
/// state machine is applied to the connection's entry.
pub open spec fn transition_event_map(
    m: Map<ConnectionId, UserState>,
    cid: ConnectionId,
    ev: UserEvent,
) -> Map<ConnectionId, UserState> {
    let duplicate_login = match ev {
        UserEvent::Login(pid) => has_player(m, pid),
        _ => false,
    };
    if duplicate_login {
        m
    } else if m.dom().contains(cid) {
        m.insert(cid, spec_transition(m[cid], ev))
    } else {
        m
    }
}

/// Maps WebSocket connection ids to player session states, and each player to
/// the rolling history of their reported game states.
pub struct UserStateManager {
    pub states: Vec<(ConnectionId, UserState)>,
    pub histories: Vec<(PlayerId, RingBuffer<GameState, 5>)>,
}

impl UserStateManager {
    /// The authoritative connection-to-state map.
    pub open spec fn states(self) -> Map<ConnectionId, UserState> {
        kv_map_of(self.states@)
    }

    /// Each registered player's pushed snapshots, oldest first.
    pub open spec fn histories(self) -> Map<PlayerId, Seq<GameState>> {
        kv_map_of(self.histories@).map_values(|rb: RingBuffer<GameState, 5>| rb.history@)
    }

    pub open spec fn inv(self) -> bool {
        &&& keys_unique(self.states@)
        &&& keys_unique(self.histories@)
        &&& forall|i: int| 0 <= i < self.histories@.len() ==> (#[trigger] self.histories@[i]).1.inv()
    }

    pub fn new() -> (r: Self)
        ensures
            r.inv(),
            r.states() == Map::<ConnectionId, UserState>::empty(),
            r.histories() == Map::<PlayerId, Seq<GameState>>::empty(),
    {
        let r = UserStateManager { states: Vec::new(), histories: Vec::new() };
        proof {
            assert(r.histories() =~= Map::<PlayerId, Seq<GameState>>::empty());
        }
        r
    }

    /// Index of the entry registered for `cid`, if any.
    fn find_state_index(&self, cid: ConnectionId) -> (r: Option<usize>)
        requires
            self.inv(),
        ensures
            match r {
                Some(i) => i < self.states@.len() && self.states@[i as int].0 == cid
                    && self.states().dom().contains(cid) && self.states()[cid]
                    == self.states@[i as int].1,
                None => !self.states().dom().contains(cid),
            },
    {
        let mut i: usize = 0;
        while i < self.states.len()
            invariant
                self.inv(),
                i <= self.states@.len(),
                forall|j: int| 0 <= j < i ==> (#[trigger] self.states@[j]).0 != cid,
            decreases self.states@.len() - i,
        {
            if self.states[i].0 == cid {
                proof {
                    lemma_kv_index(self.states@, i as int);
                }
                return Some(i);
            }
            i += 1;
        }
        proof {
            lemma_kv_dom(self.states@);
        }
        None
    }

    /// Index of the history entry kept for `pid`, if any.
    fn find_history_index(&self, pid: PlayerId) -> (r: Option<usize>)
        requires
            self.inv(),
        ensures
            match r {
                Some(i) => i < self.histories@.len() && self.histories@[i as int].0 == pid
                    && self.histories().dom().contains(pid),
                None => !self.histories().dom().contains(pid),
            },
    {
        let mut i: usize = 0;
        while i < self.histories.len()
            invariant
                self.inv(),
                i <= self.histories@.len(),
                forall|j: int| 0 <= j < i ==> (#[trigger] self.histories@[j]).0 != pid,
            decreases self.histories@.len() - i,
        {
            if self.histories[i].0 == pid {
                proof {
                    lemma_kv_index(self.histories@, i as int);
                    lemma_kv_dom(self.histories@);
                }
                return Some(i);
            }
            i += 1;
        }
        proof {
            lemma_kv_dom(self.histories@);
        }
        None
    }

    /// Binds `cid` to `state`, overwriting any previous binding.
    fn upsert_state(&mut self, cid: ConnectionId, state: UserState)
        requires
            old(self).inv(),
        ensures
            final(self).inv(),
            final(self).states() == old(self).states().insert(cid, state),
            final(self).histories == old(self).histories,
    {
        let idx = self.find_state_index(cid);
        match idx {
            Some(i) => {
                proof {
                    lemma_kv_update(self.states@, i as int, state);
                }
                self.states.set(i, (cid, state));
            }
            None => {
                proof {
                    lemma_kv_dom(self.states@);
                    assert forall|j: int|
                        0 <= j < self.states@.len() implies (#[trigger] self.states@[j]).0
                        != cid by {
                        lemma_kv_index(self.states@, j);
                    }
                    lemma_kv_push(self.states@, cid, state);
                }
                self.states.push((cid, state));
            }
        }
    }

    /// Registers the connection as `Authenticated` for the player and starts
    /// a fresh history for that player. Re-registration overwrites.
    pub fn register_web_socket(&mut self, msg: RegisterWebSocket)
        requires
            old(self).inv(),
        ensures
            final(self).inv(),
            final(self).states() == old(self).states().insert(
                msg.connection_id,
                UserState::Authenticated { player_id: msg.user_id },
            ),
            final(self).histories() == old(self).histories().insert(
                msg.user_id,
                Seq::<GameState>::empty(),
            ),
    {
        self.upsert_state(
            msg.connection_id,
            UserState::Authenticated { player_id: msg.user_id },
        );
        let ring: RingBuffer<GameState, 5> = RingBuffer::new();
        let idx = self.find_history_index(msg.user_id);
        proof {
            lemma_map_values_insert(
                kv_map_of(self.histories@),
                msg.user_id,
                ring,
                |rb: RingBuffer<GameState, 5>| rb.history@,
            );
        }
        match idx {
            Some(i) => {
                proof {
                    lemma_kv_update(self.histories@, i as int, ring);
                }
                self.histories.set(i, (msg.user_id, ring));
            }
            None => {
                proof {
                    lemma_kv_dom(self.histories@);
                    assert forall|j: int|
                        0 <= j < self.histories@.len() implies (#[trigger] self.histories@[j]).0
                        != msg.user_id by {
                        lemma_kv_index(self.histories@, j);
                    }
                    lemma_kv_push(self.histories@, msg.user_id, ring);
                }
                self.histories.push((msg.user_id, ring));
            }
        }
    }

    /// Read-only lookup of a connection's session state.
    pub fn get_state(&self, msg: GetState) -> (r: Option<UserState>)
        requires
            self.inv(),
        ensures
            r == if self.states().dom().contains(msg.connection_id) {
                Some(self.states()[msg.connection_id])
            } else {
                None::<UserState>
            },
    {
        match self.find_state_index(msg.connection_id) {
            Some(i) => Some(self.states[i].1),
            None => None,
        }
    }

    /// Scans the registry for a connection currently representing the player.
    pub fn get_connection_id_by_player_id(&self, player_id: PlayerId) -> (r: Option<ConnectionId>)
        requires
            self.inv(),
        ensures
            r is Some ==> self.states().dom().contains(r->Some_0) && player_of(
                self.states()[r->Some_0],
            ) == player_id,
            r is Some <==> has_player(self.states(), player_id),
    {
        let mut i: usize = 0;
        while i < self.states.len()
            invariant
                self.inv(),
                i <= self.states@.len(),
                forall|j: int| 0 <= j < i ==> player_of((#[trigger] self.states@[j]).1) != player_id,
            decreases self.states@.len() - i,
        {
            let entry = self.states[i];
            match entry.1.user_id() {
                Some(pid) => {
                    if pid == player_id {
                        proof {
                            lemma_kv_index(self.states@, i as int);
                            assert(self.states().dom().contains(entry.0) && player_of(
                                self.states()[entry.0],
                            ) == player_id);
                        }
                        return Some(entry.0);
                    }
                }
                None => {}
            }
            i += 1;
        }
        proof {
            lemma_kv_dom(self.states@);
            assert forall|c: ConnectionId|
                self.states().dom().contains(c) implies player_of(self.states()[c])
                != player_id by {
                let j = choose|j: int| 0 <= j < self.states@.len() && (#[trigger] self.states@[j]).0 == c;
                lemma_kv_index(self.states@, j);
            }
        }
        None
    }

    /// Reconnect detection and migration: when some connection already
    /// represents the player, its session moves to the asking connection and
    /// the stale connection is superseded.
    pub fn check_existing_connection(&mut self, msg: CheckExistingConnection) -> (r: bool)
        requires
            old(self).inv(),
        ensures
            final(self).inv(),
            r == has_player(old(self).states(), msg.user_id),
            !r ==> final(self).states() == old(self).states(),
            r ==> exists|c: ConnectionId| #[trigger] old(self).states().dom().contains(c)
                && player_of(old(self).states()[c]) == msg.user_id && final(self).states() == old(
                self,
            ).states().remove(c).insert(msg.connection_id, old(self).states()[c]),
            final(self).histories == old(self).histories,
    {
        let found = self.get_connection_id_by_player_id(msg.user_id);
        match found {
            None => false,
            Some(stale_cid) => {
                let idx = self.find_state_index(stale_cid);
                match idx {
                    Some(i) => {
                        let entry = self.states[i];
                        proof {
                            lemma_kv_remove(self.states@, i as int);
                        }
                        self.states.remove(i);
                        self.upsert_state(msg.connection_id, entry.1);
                        proof {
                            assert(old(self).states().dom().contains(stale_cid) && player_of(
                                old(self).states()[stale_cid],
                            ) == msg.user_id && final(self).states() == old(
                                self,
                            ).states().remove(stale_cid).insert(
                                msg.connection_id,
                                old(self).states()[stale_cid],
                            ));
                        }
                        true
                    }
                    None => {
                        // Unreachable: the scan returned a registered connection.
                        proof {
                            assert(false);
                        }
                        false
                    }
                }
            }
        }
    }

    /// Applies one state-machine event to a connection's session. A login for
    /// an already-represented player is refused; an unknown connection is
    /// dropped; neither is fatal.
    pub fn transition_event(&mut self, event: TransitionEvent)
        requires
            old(self).inv(),
        ensures
            final(self).inv(),
            final(self).states() == transition_event_map(
                old(self).states(),
                event.connection_id,
                event.event,
            ),
            final(self).histories == old(self).histories,
    {
        let duplicate = match event.event {
            UserEvent::Login(user_id) => {
                let existing = self.get_connection_id_by_player_id(user_id);
                existing.is_some()
            }
            _ => false,
        };
        if duplicate {
            return;
        }
        let idx = self.find_state_index(event.connection_id);
        match idx {
            Some(i) => {
                let entry = self.states[i];
                let mut st = entry.1;
                st.transition(event.event);
                proof {
                    lemma_kv_update(self.states@, i as int, st);
                }
                self.states.set(i, (entry.0, st));
            }
            None => {}
        }
    }

    /// Direct overwrite of a registered connection's state; a connection that
    /// was never registered is refused.
    pub fn set_state(&mut self, msg: SetState) -> (r: Result<(), ServiceError>)
        requires
            old(self).inv(),
        ensures
            final(self).inv(),
            final(self).histories == old(self).histories,
            old(self).states().dom().contains(msg.connection_id) ==> r is Ok && final(self).states()
                == old(self).states().insert(msg.connection_id, msg.state),
            !old(self).states().dom().contains(msg.connection_id) ==> r == Err::<(), ServiceError>(
                ServiceError::ConnectionNotRegistered(msg.connection_id),
            ) && final(self).states() == old(self).states(),
    {
        let idx = self.find_state_index(msg.connection_id);
        match idx {
            Some(i) => {
                proof {
                    lemma_kv_update(self.states@, i as int, msg.state);
                }
                self.states.set(i, (msg.connection_id, msg.state));
                Ok(())
            }
            None => Err(ServiceError::ConnectionNotRegistered(msg.connection_id)),
        }
    }

    /// Direct overwrite of a registered connection's state, under its other
    /// message name; the policy is the same as for `SetState`.
    pub fn update_state(&mut self, msg: UpdateState) -> (r: Result<(), ServiceError>)
        requires
            old(self).inv(),
        ensures
            final(self).inv(),
            final(self).histories == old(self).histories,
            old(self).states().dom().contains(msg.connection_id) ==> r is Ok && final(self).states()
                == old(self).states().insert(msg.connection_id, msg.state),
            !old(self).states().dom().contains(msg.connection_id) ==> r == Err::<(), ServiceError>(
                ServiceError::ConnectionNotRegistered(msg.connection_id),
            ) && final(self).states() == old(self).states(),
    {
        self.set_state(SetState { connection_id: msg.connection_id, state: msg.state })
    }

    /// Removes a connection's entry and its player's history; a connection
    /// without an entry is refused.
    pub fn delete_state(&mut self, msg: DeleteState) -> (r: Result<(), ServiceError>)
        requires
            old(self).inv(),
        ensures
            final(self).inv(),
            old(self).states().dom().contains(msg.connection_id) ==> r is Ok && final(self).states()
                == old(self).states().remove(msg.connection_id) && final(self).histories() == old(
                self,
            ).histories().remove(player_of(old(self).states()[msg.connection_id])),
            !old(self).states().dom().contains(msg.connection_id) ==> r == Err::<(), ServiceError>(
                ServiceError::StateNotRegistered(msg.connection_id),
            ) && final(self).states() == old(self).states() && final(self).histories() == old(
                self,
            ).histories(),
    {
        let idx = self.find_state_index(msg.connection_id);
        match idx {
            Some(i) => {
                let entry = self.states[i];
                let pid = match entry.1.user_id() {
                    Some(p) => p,
                    None => PlayerId(0),
                };
                proof {
                    lemma_kv_remove(self.states@, i as int);
                }
                self.states.remove(i);
                proof {
                    lemma_map_values_remove(
                        kv_map_of(self.histories@),
                        pid,
                        |rb: RingBuffer<GameState, 5>| rb.history@,
                    );
                }
                let hidx = self.find_history_index(pid);
                match hidx {
                    Some(j) => {
                        proof {
                            lemma_kv_remove(self.histories@, j as int);
                        }
                        self.histories.remove(j);
                    }
                    None => {
                        proof {
                            assert(final(self).histories() =~= old(self).histories().remove(pid));
                        }
                    }
                }
                Ok(())
            }
            None => Err(ServiceError::StateNotRegistered(msg.connection_id)),
        }
    }

    /// Best-effort removal of a connection's entry; never fails, even for a
    /// connection that was never fully registered.
    pub fn disconnect(&mut self, req: Disconnect)
        requires
            old(self).inv(),
        ensures
            final(self).inv(),
            final(self).states() == old(self).states().remove(req.connection_id),
            final(self).histories == old(self).histories,
    {
        let idx = self.find_state_index(req.connection_id);
        match idx {
            Some(i) => {
                proof {
                    lemma_kv_remove(self.states@, i as int);
                }
                self.states.remove(i);
            }
            None => {
                proof {
                    assert(final(self).states() =~= old(self).states().remove(req.connection_id));
                }
            }
        }
    }

    /// Appends a reported snapshot to its player's history. Returns whether a
    /// history was found; a snapshot for an unregistered player is dropped.
    pub fn push_game_state(&mut self, state: GameState) -> (r: bool)
        requires
            old(self).inv(),
        ensures
            final(self).inv(),
            final(self).states == old(self).states,
            r == old(self).histories().dom().contains(state.player_id),
            r ==> final(self).histories() == old(self).histories().insert(
                state.player_id,
                old(self).histories()[state.player_id].push(state),
            ),
            !r ==> final(self).histories() == old(self).histories(),
    {
        let idx = self.find_history_index(state.player_id);
        match idx {
            Some(i) => {
                proof {
                    lemma_kv_index(self.histories@, i as int);
                }
                let ghost old_rb = self.histories@[i as int].1;
                let pid = state.player_id;
                let mut entry = self.histories.remove(i);
                entry.1.push(state);
                proof {
                    lemma_kv_update(old(self).histories@, i as int, entry.1);
                    lemma_map_values_insert(
                        kv_map_of(old(self).histories@),
                        pid,
                        entry.1,
                        |rb: RingBuffer<GameState, 5>| rb.history@,
                    );
                }
                self.histories.insert(i, entry);
                proof {
                    assert(self.histories@ =~= old(self).histories@.update(
                        i as int,
                        (pid, entry.1),
                    ));
                }
                true
            }
            None => false,
        }
    }
}

/// Law (reconnect migration): when player `p` is represented by exactly the
/// connection `a`, the migration `check_existing_connection` performs for a
/// new connection `b` — whatever stale connection `c` its contract names —
/// moves `a`'s session to `b`: afterwards `b` answers with `a`'s old state
/// and `a` (when distinct from `b`) answers with nothing.
pub proof fn lemma_reconnect_migration(
    m: Map<ConnectionId, UserState>,
    a: ConnectionId,
    b: ConnectionId,
    p: PlayerId,
    c: ConnectionId,
)
    requires
        m.dom().contains(a),
        player_of(m[a]) == p,
        forall|c2: ConnectionId| #[trigger]
            m.dom().contains(c2) && player_of(m[c2]) == p ==> c2 == a,
        m.dom().contains(c),
        player_of(m[c]) == p,
    ensures
        c == a,
        m.remove(c).insert(b, m[c]).dom().contains(b),
        m.remove(c).insert(b, m[c])[b] == m[a],
        a != b ==> !m.remove(c).insert(b, m[c]).dom().contains(a),
{
}

/// At most one registered connection carries any given player.
pub open spec fn players_unique(m: Map<ConnectionId, UserState>) -> bool {
    forall|c1: ConnectionId, c2: ConnectionId|
        #![trigger m.dom().contains(c1), m.dom().contains(c2)]
        m.dom().contains(c1) && m.dom().contains(c2) && player_of(m[c1]) == player_of(m[c2])
            ==> c1 == c2
}

/// Law: registering a player who is not yet represented keeps connections
/// and players one-to-one, whichever connection is (re-)registered.
pub proof fn lemma_register_keeps_players_unique(
    m: Map<ConnectionId, UserState>,
    cid: ConnectionId,
    p: PlayerId,
)
    requires
        players_unique(m),
        !has_player(m, p),
    ensures
        players_unique(m.insert(cid, UserState::Authenticated { player_id: p })),
{
    let m2 = m.insert(cid, UserState::Authenticated { player_id: p });
    assert forall|c1: ConnectionId, c2: ConnectionId|
        m2.dom().contains(c1) && m2.dom().contains(c2) && player_of(m2[c1]) == player_of(
        m2[c2],
    ) implies c1 == c2 by {
        if c1 != cid && c2 != cid {
            assert(m.dom().contains(c1) && m.dom().contains(c2));
        } else if c1 == cid && c2 != cid {
            assert(m.dom().contains(c2) && player_of(m[c2]) == p);
        } else if c2 == cid && c1 != cid {
            assert(m.dom().contains(c1) && player_of(m[c1]) == p);
        }
    }
}

/// Law: applying any transition event keeps connections and players
/// one-to-one; in particular a duplicate login cannot break it.
pub proof fn lemma_transition_keeps_players_unique(
    m: Map<ConnectionId, UserState>,
    cid: ConnectionId,
    ev: UserEvent,
)
    requires
        players_unique(m),
    ensures
        players_unique(transition_event_map(m, cid, ev)),
{
    let m2 = transition_event_map(m, cid, ev);
    if m2 == m {
    } else {
        crate::user_state::lemma_transition_keeps_player(m[cid], ev);
        assert forall|c1: ConnectionId, c2: ConnectionId|
            m2.dom().contains(c1) && m2.dom().contains(c2) && player_of(m2[c1]) == player_of(
            m2[c2],
        ) implies c1 == c2 by {
            assert(m.dom().contains(c1) && m.dom().contains(c2));
            assert(player_of(m2[c1]) == player_of(m[c1]));
            assert(player_of(m2[c2]) == player_of(m[c2]));
        }
    }
}

/// Law: migrating a session to a new connection keeps connections and
/// players one-to-one.
pub proof fn lemma_migration_keeps_players_unique(
    m: Map<ConnectionId, UserState>,
    c: ConnectionId,
    b: ConnectionId,
)
    requires
        players_unique(m),
        m.dom().contains(c),
    ensures
        players_unique(m.remove(c).insert(b, m[c])),
{
    let m2 = m.remove(c).insert(b, m[c]);
    assert forall|c1: ConnectionId, c2: ConnectionId|
        m2.dom().contains(c1) && m2.dom().contains(c2) && player_of(m2[c1]) == player_of(
        m2[c2],
    ) implies c1 == c2 by {
        if c1 != b && c2 != b {
            assert(m.dom().contains(c1) && m.dom().contains(c2));
        } else if c1 == b && c2 != b {
            assert(m.dom().contains(c2) && player_of(m[c2]) == player_of(m[c]));
            assert(c2 == c);
            assert(!m2.dom().contains(c2) || c2 == b);
        } else if c2 == b && c1 != b {
            assert(m.dom().contains(c1) && player_of(m[c1]) == player_of(m[c]));
            assert(c1 == c);
            assert(!m2.dom().contains(c1) || c1 == b);
        }
    }
}

/// Law (duplicate login rejection): while some connection `a` represents
/// player `p`, a `Login(p)` event arriving for any connection `c` is refused
/// and leaves the whole registry unchanged; in particular an unregistered `c`
/// stays unregistered.
pub proof fn lemma_duplicate_login_rejected(
    m: Map<ConnectionId, UserState>,
    a: ConnectionId,
    c: ConnectionId,
    p: PlayerId,
)
    requires
        m.dom().contains(a),
        player_of(m[a]) == p,
    ensures
        transition_event_map(m, c, UserEvent::Login(p)) == m,
        !m.dom().contains(c) ==> !transition_event_map(m, c, UserEvent::Login(p)).dom().contains(c),
{
    assert(has_player(m, p));
}

} // verus!
