//! The lobby registry: the authoritative mapping from lobby name to the set
//! of member players.
//!
//! Lobby names are unique; a lobby whose member set is empty lingers until
//! the next pruning pass (`remove_empty`), which runs before every listing.

use vstd::prelude::*;
use crate::assoc::{
    keys_unique, kv_map_of, lemma_kv_dom, lemma_kv_index, lemma_kv_push, lemma_kv_remove,
    lemma_kv_update, lemma_map_values_insert,
};
use crate::ids::PlayerId;
use crate::multiplayer_error::ServiceError;

verus! {

/// The lobby entries with names taken to their character sequences, so the
/// registry can be read as a map keyed by name.
pub open spec fn entries_view(s: Seq<(String, Vec<PlayerId>)>) -> Seq<(Seq<char>, Vec<PlayerId>)> {
    s.map_values(|e: (String, Vec<PlayerId>)| (e.0@, e.1))
}

/// The player-record entries with lobby names taken to their character
/// sequences, so the record list can be read as a map keyed by player.
pub open spec fn records_view(s: Seq<(PlayerId, String)>) -> Seq<(PlayerId, Seq<char>)> {
    s.map_values(|e: (PlayerId, String)| (e.0, e.1@))
}

/// The registry after `NewLobby(name)`: an empty member set appears, unless
/// the name is taken.
pub open spec fn new_lobby_map(
    m: Map<Seq<char>, Set<PlayerId>>,
    name: Seq<char>,
) -> Map<Seq<char>, Set<PlayerId>> {
    if m.dom().contains(name) {
        m
    } else {
        m.insert(name, Set::empty())
    }
}

/// The registry after `AddPlayer(p, name)`: the player joins the lobby's
/// member set, provided the lobby exists.
pub open spec fn add_player_map(
    m: Map<Seq<char>, Set<PlayerId>>,
    p: PlayerId,
    name: Seq<char>,
) -> Map<Seq<char>, Set<PlayerId>> {
    if m.dom().contains(name) {
        m.insert(name, m[name].insert(p))
    } else {
        m
    }
}

/// The registry after `RemovePlayer(p, name)`: the player leaves the lobby's
/// member set, provided the lobby exists and the player was a member.
pub open spec fn remove_player_map(
    m: Map<Seq<char>, Set<PlayerId>>,
    p: PlayerId,
    name: Seq<char>,
) -> Map<Seq<char>, Set<PlayerId>> {
    if m.dom().contains(name) && m[name].contains(p) {
        m.insert(name, m[name].remove(p))
    } else {
        m
    }
}

/// The registry after pruning: exactly the lobbies that still have members.
pub open spec fn remove_empty_map(
    m: Map<Seq<char>, Set<PlayerId>>,
) -> Map<Seq<char>, Set<PlayerId>> {
    Map::new(|n: Seq<char>| m.dom().contains(n) && !m[n].is_empty(), |n: Seq<char>| m[n])
}

/// `m` with the lobbies named among the first `k` entries of `names` removed.
pub open spec fn pruned(
    m: Map<Seq<char>, Set<PlayerId>>,
    names: Seq<String>,
    k: int,
) -> Map<Seq<char>, Set<PlayerId>> {
    Map::new(
        |n: Seq<char>|
            m.dom().contains(n) && !(exists|j: int| 0 <= j < k && (#[trigger] names[j])@ == n),
        |n: Seq<char>| m[n],
    )
}

/// Appending a member extends the member set by that player.
proof fn lemma_push_to_set(v: Seq<PlayerId>, p: PlayerId)
    ensures
        v.push(p).to_set() == v.to_set().insert(p),
{
    assert forall|x: PlayerId| v.push(p).to_set().contains(x) implies v.to_set().insert(
        p,
    ).contains(x) by {
        let i = choose|i: int| 0 <= i < v.push(p).len() && v.push(p)[i] == x;
        if i < v.len() {
            assert(v[i] == x);
        }
    }
    assert forall|x: PlayerId| v.to_set().insert(p).contains(x) implies v.push(p).to_set().contains(
        x,
    ) by {
        if x == p {
            assert(v.push(p)[v.len() as int] == x);
        } else {
            let i = choose|i: int| 0 <= i < v.len() && v[i] == x;
            assert(v.push(p)[i] == x);
        }
    }
    assert(v.push(p).to_set() =~= v.to_set().insert(p));
}

/// Removing the only occurrence of a member shrinks the member set by that
/// player.
proof fn lemma_remove_to_set(v: Seq<PlayerId>, j: int)
    requires
        v.no_duplicates(),
        0 <= j < v.len(),
    ensures
        v.remove(j).to_set() == v.to_set().remove(v[j]),
        v.remove(j).no_duplicates(),
{
    let v2 = v.remove(j);
    assert forall|x: PlayerId| v2.to_set().contains(x) implies v.to_set().remove(v[j]).contains(
        x,
    ) by {
        let i = choose|i: int| 0 <= i < v2.len() && v2[i] == x;
        if i < j {
            assert(v[i] == x);
        } else {
            assert(v[i + 1] == x);
        }
    }
    assert forall|x: PlayerId| v.to_set().remove(v[j]).contains(x) implies v2.to_set().contains(
        x,
    ) by {
        let i = choose|i: int| 0 <= i < v.len() && v[i] == x;
        if i < j {
            assert(v2[i] == x);
        } else {
            assert(i != j);
            assert(v2[i - 1] == x);
        }
    }
    assert(v2.to_set() =~= v.to_set().remove(v[j]));
}

pub struct Lobbies {
    /// Lobby name to member players; names are pairwise distinct.
    pub lobbies: Vec<(String, Vec<PlayerId>)>,
    /// Best-effort record of which lobby a player last joined; kept as the
    /// membership operations run, but not authoritative.
    pub player_to_lobby: Vec<(PlayerId, String)>,
}

impl Lobbies {
    /// The member sets, keyed by lobby name.
    pub open spec fn lobbies_map(self) -> Map<Seq<char>, Set<PlayerId>> {
        kv_map_of(entries_view(self.lobbies@)).map_values(|v: Vec<PlayerId>| v@.to_set())
    }

    /// The lobby each player last joined, keyed by player.
    pub open spec fn player_to_lobby_map(self) -> Map<PlayerId, Seq<char>> {
        kv_map_of(records_view(self.player_to_lobby@))
    }

    pub open spec fn inv(self) -> bool {
        &&& keys_unique(entries_view(self.lobbies@))
        &&& keys_unique(records_view(self.player_to_lobby@))
        &&& forall|i: int|
            0 <= i < self.lobbies@.len() ==> (#[trigger] self.lobbies@[i]).1@.no_duplicates()
    }

    pub fn new() -> (r: Self)
        ensures
            r.inv(),
            r.lobbies_map() == Map::<Seq<char>, Set<PlayerId>>::empty(),
            r.player_to_lobby_map() == Map::<PlayerId, Seq<char>>::empty(),
    {
        let r = Lobbies { lobbies: Vec::new(), player_to_lobby: Vec::new() };
        proof {
            assert(entries_view(r.lobbies@) =~= Seq::<(Seq<char>, Vec<PlayerId>)>::empty());
            assert(r.lobbies_map() =~= Map::<Seq<char>, Set<PlayerId>>::empty());
            assert(records_view(r.player_to_lobby@) =~= Seq::<(PlayerId, Seq<char>)>::empty());
        }
        r
    }

    /// The raw registry entries, for inspection.
    pub fn get(&self) -> (r: &Vec<(String, Vec<PlayerId>)>)
        ensures
            r == &self.lobbies,
    {
        &self.lobbies
    }

    /// Index of the lobby with this name, if any.
    fn find_lobby_index(&self, name: &String) -> (r: Option<usize>)
        requires
            self.inv(),
        ensures
            match r {
                Some(i) => i < self.lobbies@.len() && self.lobbies@[i as int].0@ == name@
                    && self.lobbies_map().dom().contains(name@) && self.lobbies_map()[name@]
                    == self.lobbies@[i as int].1@.to_set(),
                None => !self.lobbies_map().dom().contains(name@),
            },
    {
        let mut i: usize = 0;
        while i < self.lobbies.len()
            invariant
                self.inv(),
                i <= self.lobbies@.len(),
                forall|j: int| 0 <= j < i ==> (#[trigger] self.lobbies@[j]).0@ != name@,
            decreases self.lobbies@.len() - i,
        {
            if self.lobbies[i].0 == *name {
                proof {
                    assert(entries_view(self.lobbies@)[i as int]
                        == (self.lobbies@[i as int].0@, self.lobbies@[i as int].1));
                    lemma_kv_index(entries_view(self.lobbies@), i as int);
                }
                return Some(i);
            }
            i += 1;
        }
        proof {
            lemma_kv_dom(entries_view(self.lobbies@));
            assert(forall|j: int|
                0 <= j < self.lobbies@.len() ==> (#[trigger] entries_view(self.lobbies@)[j]).0
                    != name@);
        }
        None
    }

    /// Creates an empty lobby under a fresh name; a taken name is refused.
    pub fn new_lobby(&mut self, lobby_name: String) -> (r: Result<(), ServiceError>)
        requires
            old(self).inv(),
        ensures
            final(self).inv(),
            final(self).lobbies_map() == new_lobby_map(old(self).lobbies_map(), lobby_name@),
            r is Ok <==> !old(self).lobbies_map().dom().contains(lobby_name@),
            r is Err ==> r == Err::<(), ServiceError>(ServiceError::LobbyAlreadyExists),
            final(self).player_to_lobby == old(self).player_to_lobby,
    {
        match self.find_lobby_index(&lobby_name) {
            Some(_) => Err(ServiceError::LobbyAlreadyExists),
            None => {
                let members: Vec<PlayerId> = Vec::new();
                proof {
                    lemma_kv_dom(entries_view(self.lobbies@));
                    assert(forall|j: int|
                        0 <= j < self.lobbies@.len() ==> (#[trigger] entries_view(
                            self.lobbies@,
                        )[j]).0 != lobby_name@);
                    lemma_kv_push(entries_view(self.lobbies@), lobby_name@, members);
                    lemma_map_values_insert(
                        kv_map_of(entries_view(self.lobbies@)),
                        lobby_name@,
                        members,
                        |v: Vec<PlayerId>| v@.to_set(),
                    );
                    assert(members@.to_set() =~= Set::<PlayerId>::empty());
                }
                self.lobbies.push((lobby_name, members));
                proof {
                    assert(entries_view(self.lobbies@) =~= entries_view(old(self).lobbies@).push(
                        (self.lobbies@.last().0@, self.lobbies@.last().1),
                    ));
                    assert(self.lobbies_map() =~= new_lobby_map(
                        old(self).lobbies_map(),
                        self.lobbies@.last().0@,
                    ));
                }
                Ok(())
            }
        }
    }

    /// Adds the player to the named lobby's member set; an unknown lobby is
    /// refused.
    pub fn add_player_to(&mut self, player: PlayerId, lobby_name: String) -> (r: Result<
        (),
        ServiceError,
    >)
        requires
            old(self).inv(),
        ensures
            final(self).inv(),
            final(self).lobbies_map() == add_player_map(
                old(self).lobbies_map(),
                player,
                lobby_name@,
            ),
            r is Ok <==> old(self).lobbies_map().dom().contains(lobby_name@),
            r is Ok ==> final(self).player_to_lobby_map() == old(self).player_to_lobby_map().insert(
                player,
                lobby_name@,
            ),
            r is Err ==> (r matches Err(e) && e matches ServiceError::LobbyDoesNotExist(n) && n@
                == lobby_name@) && final(self).player_to_lobby == old(self).player_to_lobby,
    {
        match self.find_lobby_index(&lobby_name) {
            None => Err(ServiceError::LobbyDoesNotExist(lobby_name)),
            Some(i) => {
                let ghost old_entries = self.lobbies@;
                let mut entry = self.lobbies.remove(i);
                let present = contains_player(&entry.1, player);
                if !present {
                    entry.1.push(player);
                }
                proof {
                    if present {
                        assert(entry.1@.to_set() =~= old_entries[i as int].1@.to_set().insert(
                            player,
                        ));
                    } else {
                        lemma_push_to_set(old_entries[i as int].1@, player);
                    }
                    lemma_kv_update(
                        entries_view(old_entries),
                        i as int,
                        entry.1,
                    );
                    lemma_map_values_insert(
                        kv_map_of(entries_view(old_entries)),
                        old_entries[i as int].0@,
                        entry.1,
                        |v: Vec<PlayerId>| v@.to_set(),
                    );
                }
                self.lobbies.insert(i, entry);
                proof {
                    assert(entries_view(self.lobbies@) =~= entries_view(old_entries).update(
                        i as int,
                        (old_entries[i as int].0@, self.lobbies@[i as int].1),
                    ));
                }
                self.record_player_lobby(player, lobby_name);
                Ok(())
            }
        }
    }

    /// Removes the player from the named lobby's member set; an unknown
    /// lobby, or a player who is not a member, is refused.
    pub fn remove_player_from_lobby(&mut self, player: PlayerId, lobby_name: String) -> (r: Result<
        (),
        ServiceError,
    >)
        requires
            old(self).inv(),
        ensures
            final(self).inv(),
            final(self).lobbies_map() == remove_player_map(
                old(self).lobbies_map(),
                player,
                lobby_name@,
            ),
            r is Ok <==> (old(self).lobbies_map().dom().contains(lobby_name@) && old(
                self,
            ).lobbies_map()[lobby_name@].contains(player)),
            r is Ok ==> final(self).player_to_lobby_map() == old(self).player_to_lobby_map().remove(
                player,
            ),
            r is Err ==> final(self).player_to_lobby == old(self).player_to_lobby,
            !old(self).lobbies_map().dom().contains(lobby_name@) ==> (r matches Err(e)
                && e matches ServiceError::LobbyDoesNotExist(n) && n@ == lobby_name@),
            (old(self).lobbies_map().dom().contains(lobby_name@) && !old(
                self,
            ).lobbies_map()[lobby_name@].contains(player)) ==> (r matches Err(e) && e matches
                ServiceError::PlayerIsNotInLobby(n) && n@ == lobby_name@),
    {
        match self.find_lobby_index(&lobby_name) {
            None => Err(ServiceError::LobbyDoesNotExist(lobby_name)),
            Some(i) => {
                let ghost old_entries = self.lobbies@;
                let mut entry = self.lobbies.remove(i);
                let found = find_player(&entry.1, player);
                let r = match found {
                    None => Err(ServiceError::PlayerIsNotInLobby(lobby_name)),
                    Some(j) => {
                        proof {
                            lemma_remove_to_set(entry.1@, j as int);
                        }
                        entry.1.remove(j);
                        self.remove_player_record(player);
                        Ok(())
                    }
                };
                proof {
                    lemma_kv_update(
                        entries_view(old_entries),
                        i as int,
                        entry.1,
                    );
                    lemma_map_values_insert(
                        kv_map_of(entries_view(old_entries)),
                        old_entries[i as int].0@,
                        entry.1,
                        |v: Vec<PlayerId>| v@.to_set(),
                    );
                }
                self.lobbies.insert(i, entry);
                proof {
                    assert(entries_view(self.lobbies@) =~= entries_view(old_entries).update(
                        i as int,
                        (old_entries[i as int].0@, self.lobbies@[i as int].1),
                    ));
                    if found is None {
                        assert(self.lobbies_map() =~= old(self).lobbies_map());
                    }
                }
                r
            }
        }
    }

    /// Removes the named lobby outright, returning its members.
    pub fn remove_lobby(&mut self, lobby_name: &String) -> (r: Option<Vec<PlayerId>>)
        requires
            old(self).inv(),
        ensures
            final(self).inv(),
            final(self).lobbies_map() == old(self).lobbies_map().remove(lobby_name@),
            old(self).lobbies_map().dom().contains(lobby_name@) ==> (r matches Some(v)
                && v@.to_set() == old(self).lobbies_map()[lobby_name@]),
            !old(self).lobbies_map().dom().contains(lobby_name@) ==> r is None,
            final(self).player_to_lobby == old(self).player_to_lobby,
    {
        match self.find_lobby_index(lobby_name) {
            None => {
                proof {
                    assert(self.lobbies_map() =~= old(self).lobbies_map().remove(lobby_name@));
                }
                None
            }
            Some(i) => {
                proof {
                    lemma_kv_remove(entries_view(self.lobbies@), i as int);
                }
                let entry = self.lobbies.remove(i);
                proof {
                    assert(entries_view(self.lobbies@) =~= entries_view(old(self).lobbies@).remove(
                        i as int,
                    ));
                    assert(self.lobbies_map() =~= old(self).lobbies_map().remove(lobby_name@));
                }
                Some(entry.1)
            }
        }
    }

    /// Names of the lobbies whose member sets are currently empty.
    pub fn empty_lobbies(&self) -> (r: Vec<String>)
        requires
            self.inv(),
        ensures
            forall|t: int|
                0 <= t < r@.len() ==> self.lobbies_map().dom().contains((#[trigger] r@[t])@)
                    && self.lobbies_map()[r@[t]@].is_empty(),
            forall|n: Seq<char>|
                (#[trigger] self.lobbies_map().dom().contains(n)
                    && self.lobbies_map()[n].is_empty()) ==> exists|t: int|
                    0 <= t < r@.len() && (#[trigger] r@[t])@ == n,
            forall|t1: int, t2: int|
                0 <= t1 < t2 < r@.len() ==> (#[trigger] r@[t1])@ != (#[trigger] r@[t2])@,
    {
        let mut r: Vec<String> = Vec::new();
        let mut i: usize = 0;
        while i < self.lobbies.len()
            invariant
                self.inv(),
                i <= self.lobbies@.len(),
                forall|t: int|
                    0 <= t < r@.len() ==> self.lobbies_map().dom().contains((#[trigger] r@[t])@)
                        && self.lobbies_map()[r@[t]@].is_empty(),
                forall|j: int|
                    0 <= j < i && (#[trigger] self.lobbies@[j]).1@.len() == 0 ==> exists|t: int|
                        0 <= t < r@.len() && (#[trigger] r@[t])@ == self.lobbies@[j].0@,
                forall|t: int|
                    0 <= t < r@.len() ==> exists|j: int|
                        0 <= j < i && (#[trigger] r@[t])@ == self.lobbies@[j].0@,
                forall|t1: int, t2: int|
                    0 <= t1 < t2 < r@.len() ==> (#[trigger] r@[t1])@ != (#[trigger] r@[t2])@,
            decreases self.lobbies@.len() - i,
        {
            let ghost r_prev = r@;
            if self.lobbies[i].1.len() == 0 {
                proof {
                    assert(entries_view(self.lobbies@)[i as int]
                        == (self.lobbies@[i as int].0@, self.lobbies@[i as int].1));
                    lemma_kv_index(entries_view(self.lobbies@), i as int);
                    assert(self.lobbies@[i as int].1@.to_set() =~= Set::<PlayerId>::empty());
                }
                let name = self.lobbies[i].0.clone();
                r.push(name);
                proof {
                    assert(r@[r@.len() - 1]@ == self.lobbies@[i as int].0@);
                    assert forall|j: int|
                        0 <= j < i + 1 && (#[trigger] self.lobbies@[j]).1@.len() == 0 implies
                        exists|t: int|
                            0 <= t < r@.len() && (#[trigger] r@[t])@ == self.lobbies@[j].0@ by {
                        if j < i {
                            let t = choose|t: int|
                                0 <= t < r_prev.len() && (#[trigger] r_prev[t])@
                                    == self.lobbies@[j].0@;
                            assert(r@[t]@ == self.lobbies@[j].0@);
                        } else {
                            assert(r@[r@.len() - 1]@ == self.lobbies@[j].0@);
                        }
                    }
                    assert forall|t: int| 0 <= t < r@.len() implies exists|j: int|
                        0 <= j < i + 1 && (#[trigger] r@[t])@ == self.lobbies@[j].0@ by {
                        if t < r_prev.len() {
                            let j = choose|j: int|
                                0 <= j < i && (#[trigger] r_prev[t])@ == self.lobbies@[j].0@;
                            assert(r@[t]@ == self.lobbies@[j].0@);
                        } else {
                            assert(r@[t]@ == self.lobbies@[i as int].0@);
                        }
                    }
                    // The new name differs from every name listed so far:
                    // it comes from a later entry, and names are unique.
                    assert forall|t1: int, t2: int| 0 <= t1 < t2 < r@.len() implies (
                    #[trigger] r@[t1])@ != (#[trigger] r@[t2])@ by {
                        if t2 == r@.len() - 1 {
                            let j = choose|j: int|
                                0 <= j < i && (#[trigger] r_prev[t1])@ == self.lobbies@[j].0@;
                            assert(entries_view(self.lobbies@)[j].0 == self.lobbies@[j].0@);
                            assert(entries_view(self.lobbies@)[i as int].0
                                == self.lobbies@[i as int].0@);
                            assert(entries_view(self.lobbies@)[j].0 != entries_view(
                                self.lobbies@,
                            )[i as int].0);
                            assert(r@[t1]@ == self.lobbies@[j].0@);
                        } else {
                            assert(r_prev[t1]@ != r_prev[t2]@);
                        }
                    }
                }
            }
            i += 1;
        }
        proof {
            lemma_kv_dom(entries_view(self.lobbies@));
            assert forall|n: Seq<char>| #[trigger]
                self.lobbies_map().dom().contains(n) && self.lobbies_map()[n].is_empty() implies
                exists|t: int| 0 <= t < r@.len() && (#[trigger] r@[t])@ == n by {
                let j = choose|j: int|
                    0 <= j < entries_view(self.lobbies@).len() && (#[trigger] entries_view(
                        self.lobbies@,
                    )[j]).0 == n;
                lemma_kv_index(entries_view(self.lobbies@), j);
                assert(self.lobbies@[j].0@ == n);
                if self.lobbies@[j].1@.len() > 0 {
                    assert(self.lobbies@[j].1@.to_set().contains(self.lobbies@[j].1@[0]));
                    assert(false);
                }
            }
        }
        r
    }

    /// Prunes every lobby whose member set is empty.
    pub fn remove_empty(&mut self)
        requires
            old(self).inv(),
        ensures
            final(self).inv(),
            final(self).lobbies_map() == remove_empty_map(old(self).lobbies_map()),
            final(self).player_to_lobby == old(self).player_to_lobby,
    {
        let names = self.empty_lobbies();
        let ghost m0 = self.lobbies_map();
        let mut k: usize = 0;
        while k < names.len()
            invariant
                self.inv(),
                k <= names@.len(),
                self.player_to_lobby == old(self).player_to_lobby,
                self.lobbies_map() == pruned(m0, names@, k as int),
                forall|t: int|
                    0 <= t < names@.len() ==> m0.dom().contains((#[trigger] names@[t])@)
                        && m0[names@[t]@].is_empty(),
                forall|n: Seq<char>|
                    (#[trigger] m0.dom().contains(n) && m0[n].is_empty()) ==> exists|t: int|
                        0 <= t < names@.len() && (#[trigger] names@[t])@ == n,
            decreases names@.len() - k,
        {
            self.remove_lobby(&names[k]);
            proof {
                assert(self.lobbies_map() =~= pruned(m0, names@, k as int + 1));
            }
            k += 1;
        }
        proof {
            assert(pruned(m0, names@, names@.len() as int) =~= remove_empty_map(m0));
        }
    }

    /// Records which lobby the player last joined, replacing any previous
    /// record for that player.
    fn record_player_lobby(&mut self, player: PlayerId, lobby_name: String)
        requires
            keys_unique(records_view(old(self).player_to_lobby@)),
        ensures
            final(self).lobbies == old(self).lobbies,
            keys_unique(records_view(final(self).player_to_lobby@)),
            final(self).player_to_lobby_map() == old(self).player_to_lobby_map().insert(
                player,
                lobby_name@,
            ),
    {
        let mut i: usize = 0;
        while i < self.player_to_lobby.len()
            invariant
                i <= self.player_to_lobby@.len(),
                self.lobbies == old(self).lobbies,
                self.player_to_lobby == old(self).player_to_lobby,
                keys_unique(records_view(self.player_to_lobby@)),
                forall|j: int| 0 <= j < i ==> (#[trigger] self.player_to_lobby@[j]).0 != player,
            decreases self.player_to_lobby@.len() - i,
        {
            if self.player_to_lobby[i].0 == player {
                proof {
                    assert(records_view(self.player_to_lobby@)[i as int] == (
                        self.player_to_lobby@[i as int].0,
                        self.player_to_lobby@[i as int].1@,
                    ));
                    lemma_kv_update(records_view(self.player_to_lobby@), i as int, lobby_name@);
                }
                self.player_to_lobby.set(i, (player, lobby_name));
                proof {
                    assert(records_view(self.player_to_lobby@) =~= records_view(
                        old(self).player_to_lobby@,
                    ).update(i as int, (player, lobby_name@)));
                }
                return;
            }
            i += 1;
        }
        proof {
            assert forall|j: int|
                0 <= j < records_view(self.player_to_lobby@).len() implies (#[trigger] records_view(
                self.player_to_lobby@,
            )[j]).0 != player by {
                assert(records_view(self.player_to_lobby@)[j].0 == self.player_to_lobby@[j].0);
            }
            lemma_kv_push(records_view(self.player_to_lobby@), player, lobby_name@);
        }
        self.player_to_lobby.push((player, lobby_name));
        proof {
            assert(records_view(self.player_to_lobby@) =~= records_view(
                old(self).player_to_lobby@,
            ).push((player, lobby_name@)));
        }
    }

    /// Drops the record of the player's lobby, if one is kept.
    fn remove_player_record(&mut self, player: PlayerId)
        requires
            keys_unique(records_view(old(self).player_to_lobby@)),
        ensures
            final(self).lobbies == old(self).lobbies,
            keys_unique(records_view(final(self).player_to_lobby@)),
            final(self).player_to_lobby_map() == old(self).player_to_lobby_map().remove(player),
    {
        let mut i: usize = 0;
        while i < self.player_to_lobby.len()
            invariant
                i <= self.player_to_lobby@.len(),
                self.lobbies == old(self).lobbies,
                self.player_to_lobby == old(self).player_to_lobby,
                keys_unique(records_view(self.player_to_lobby@)),
                forall|j: int| 0 <= j < i ==> (#[trigger] self.player_to_lobby@[j]).0 != player,
            decreases self.player_to_lobby@.len() - i,
        {
            if self.player_to_lobby[i].0 == player {
                proof {
                    assert(records_view(self.player_to_lobby@)[i as int] == (
                        self.player_to_lobby@[i as int].0,
                        self.player_to_lobby@[i as int].1@,
                    ));
                    lemma_kv_remove(records_view(self.player_to_lobby@), i as int);
                }
                self.player_to_lobby.remove(i);
                proof {
                    assert(records_view(self.player_to_lobby@) =~= records_view(
                        old(self).player_to_lobby@,
                    ).remove(i as int));
                }
                return;
            }
            i += 1;
        }
        proof {
            lemma_kv_dom(records_view(self.player_to_lobby@));
            assert forall|j: int|
                0 <= j < records_view(self.player_to_lobby@).len() implies (#[trigger] records_view(
                self.player_to_lobby@,
            )[j]).0 != player by {
                assert(records_view(self.player_to_lobby@)[j].0 == self.player_to_lobby@[j].0);
            }
            assert(self.player_to_lobby_map() =~= old(self).player_to_lobby_map().remove(player));
        }
    }
}

/// Whether the member list already holds the player.
fn contains_player(members: &Vec<PlayerId>, player: PlayerId) -> (r: bool)
    ensures
        r == members@.contains(player),
{
    match find_player(members, player) {
        Some(_) => true,
        None => false,
    }
}

/// Index of the player in the member list, if present.
fn find_player(members: &Vec<PlayerId>, player: PlayerId) -> (r: Option<usize>)
    ensures
        match r {
            Some(j) => j < members@.len() && members@[j as int] == player,
            None => !members@.contains(player),
        },
        r is Some <==> members@.contains(player),
{
    let mut j: usize = 0;
    while j < members.len()
        invariant
            j <= members@.len(),
            forall|t: int| 0 <= t < j ==> members@[t] != player,
        decreases members@.len() - j,
    {
        if members[j] == player {
            return Some(j);
        }
        j += 1;
    }
    None
}

} // verus!
