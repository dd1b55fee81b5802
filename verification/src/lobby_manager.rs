//! The lobby coordinator: applies player requests to the lobby registry and
//! answers the listing queries.
//!
//! Requests carry player ids as UUID strings; a request whose id does not
//! parse is refused with a typed error rather than crashing the coordinator.

use vstd::prelude::*;
use crate::assoc::{lemma_kv_dom, lemma_kv_index};
use crate::communication::{
    CreateLobbyRequest, JoinLobbyRequest, LeaveLobbyRequest, PlayersInLobby,
};
use crate::ids::{parse_uuid, parsed_uuid, PlayerId};
use crate::lobbies::{
    add_player_map, entries_view, new_lobby_map, remove_empty_map, remove_player_map, Lobbies,
};
use crate::multiplayer_error::ServiceError;

verus! {

/// Owns the lobby registry; one instance coordinates all connections.
pub struct LobbyManager {
    pub lobbies: Lobbies,
}

impl LobbyManager {
    /// The member sets, keyed by lobby name.
    pub open spec fn lobbies_map(self) -> Map<Seq<char>, Set<PlayerId>> {
        self.lobbies.lobbies_map()
    }

    /// The lobby each player last joined, keyed by player.
    pub open spec fn player_to_lobby_map(self) -> Map<PlayerId, Seq<char>> {
        self.lobbies.player_to_lobby_map()
    }

    pub open spec fn inv(self) -> bool {
        self.lobbies.inv()
    }

    pub fn new() -> (r: LobbyManager)
        ensures
            r.inv(),
            r.lobbies_map() == Map::<Seq<char>, Set<PlayerId>>::empty(),
    {
        LobbyManager { lobbies: Lobbies::new() }
    }

    /// `CreateLobby`: creates the lobby, then adds the requesting player to
    /// it; either step's registry refusal is deliberately ignored, as in a
    /// fire-and-forget message.
    pub fn create_lobby_request(&mut self, req: CreateLobbyRequest) -> (r: Result<
        (),
        ServiceError,
    >)
        requires
            old(self).inv(),
        ensures
            final(self).inv(),
            parsed_uuid(req.player_id@) is None ==> (r matches Err(e) && e matches
                ServiceError::PlayerIdIsNotUuid(s) && s@ == req.player_id@) && final(self).lobbies
                == old(self).lobbies,
            parsed_uuid(req.player_id@) matches Some(p) ==> r is Ok && final(self).lobbies_map()
                == add_player_map(
                new_lobby_map(old(self).lobbies_map(), req.lobby_name@),
                PlayerId(p),
                req.lobby_name@,
            ) && final(self).player_to_lobby_map() == old(self).player_to_lobby_map().insert(
                PlayerId(p),
                req.lobby_name@,
            ),
    {
        match parse_uuid(&req.player_id) {
            None => Err(ServiceError::PlayerIdIsNotUuid(req.player_id)),
            Some(p) => {
                let player_id = PlayerId(p);
                let name = req.lobby_name.clone();
                let _ = self.lobbies.new_lobby(name);
                let _ = self.lobbies.add_player_to(player_id, req.lobby_name);
                Ok(())
            }
        }
    }

    /// `JoinLobby`: adds the requesting player to the named lobby.
    pub fn join_lobby_request(&mut self, req: JoinLobbyRequest) -> (r: Result<(), ServiceError>)
        requires
            old(self).inv(),
        ensures
            final(self).inv(),
            parsed_uuid(req.player_id@) is None ==> (r matches Err(e) && e matches
                ServiceError::PlayerIdIsNotUuid(s) && s@ == req.player_id@) && final(self).lobbies
                == old(self).lobbies,
            parsed_uuid(req.player_id@) matches Some(p) ==> final(self).lobbies_map()
                == add_player_map(old(self).lobbies_map(), PlayerId(p), req.lobby_name@) && (
            r is Ok <==> old(self).lobbies_map().dom().contains(req.lobby_name@)) && (r is Ok
                ==> final(self).player_to_lobby_map() == old(self).player_to_lobby_map().insert(
                PlayerId(p),
                req.lobby_name@,
            )) && (r is Err ==> final(self).lobbies.player_to_lobby == old(
                self,
            ).lobbies.player_to_lobby),
    {
        match parse_uuid(&req.player_id) {
            None => Err(ServiceError::PlayerIdIsNotUuid(req.player_id)),
            Some(p) => {
                let player_id = PlayerId(p);
                match self.lobbies.add_player_to(player_id, req.lobby_name) {
                    Ok(()) => Ok(()),
                    Err(e) => Err(e),
                }
            }
        }
    }

    /// `LeaveLobby`: removes the requesting player from the named lobby,
    /// then prunes every lobby that ended up empty.
    pub fn leave_lobby_request(&mut self, req: LeaveLobbyRequest) -> (r: Result<(), ServiceError>)
        requires
            old(self).inv(),
        ensures
            final(self).inv(),
            parsed_uuid(req.player_id@) is None ==> (r matches Err(e) && e matches
                ServiceError::PlayerIdIsNotUuid(s) && s@ == req.player_id@) && final(self).lobbies
                == old(self).lobbies,
            parsed_uuid(req.player_id@) matches Some(p) ==> final(self).lobbies_map()
                == remove_empty_map(
                remove_player_map(old(self).lobbies_map(), PlayerId(p), req.lobby_name@),
            ) && (r is Ok <==> (old(self).lobbies_map().dom().contains(req.lobby_name@) && old(
                self,
            ).lobbies_map()[req.lobby_name@].contains(PlayerId(p)))) && (r is Ok ==> final(self).player_to_lobby_map() == old(self).player_to_lobby_map().remove(PlayerId(p))) && (
            r is Err ==> final(self).lobbies.player_to_lobby == old(self).lobbies.player_to_lobby),
    {
        match parse_uuid(&req.player_id) {
            None => Err(ServiceError::PlayerIdIsNotUuid(req.player_id)),
            Some(p) => {
                let player_id = PlayerId(p);
                let r = self.lobbies.remove_player_from_lobby(player_id, req.lobby_name);
                self.lobbies.remove_empty();
                r
            }
        }
    }

    /// `ListLobbies`: prunes the empty lobbies, then returns the names of
    /// those remaining.
    pub fn list_lobbies(&mut self) -> (r: Vec<String>)
        requires
            old(self).inv(),
        ensures
            final(self).inv(),
            final(self).lobbies_map() == remove_empty_map(old(self).lobbies_map()),
            forall|t: int|
                0 <= t < r@.len() ==> final(self).lobbies_map().dom().contains(
                    (#[trigger] r@[t])@,
                ),
            forall|n: Seq<char>| #[trigger]
                final(self).lobbies_map().dom().contains(n) ==> exists|t: int|
                    0 <= t < r@.len() && (#[trigger] r@[t])@ == n,
            forall|t1: int, t2: int|
                0 <= t1 < t2 < r@.len() ==> (#[trigger] r@[t1])@ != (#[trigger] r@[t2])@,
    {
        self.lobbies.remove_empty();
        let mut r: Vec<String> = Vec::new();
        let mut i: usize = 0;
        while i < self.lobbies.lobbies.len()
            invariant
                self.inv(),
                i <= self.lobbies.lobbies@.len(),
                r@.len() == i,
                forall|t: int|
                    0 <= t < i ==> (#[trigger] r@[t])@ == self.lobbies.lobbies@[t].0@,
            decreases self.lobbies.lobbies@.len() - i,
        {
            let name = self.lobbies.lobbies[i].0.clone();
            r.push(name);
            i += 1;
        }
        proof {
            lemma_kv_dom(entries_view(self.lobbies.lobbies@));
            assert forall|t: int|
                0 <= t < r@.len() implies self.lobbies_map().dom().contains(
                (#[trigger] r@[t])@,
            ) by {
                assert(entries_view(self.lobbies.lobbies@)[t].0 == r@[t]@);
            }
            assert forall|n: Seq<char>| #[trigger]
                self.lobbies_map().dom().contains(n) implies exists|t: int|
                0 <= t < r@.len() && (#[trigger] r@[t])@ == n by {
                let j = choose|j: int|
                    0 <= j < entries_view(self.lobbies.lobbies@).len() && (#[trigger] entries_view(
                        self.lobbies.lobbies@,
                    )[j]).0 == n;
                assert(r@[j]@ == n);
            }
            // Listed names mirror the registry entries index by index, and
            // the entries' names are pairwise distinct.
            assert forall|t1: int, t2: int| 0 <= t1 < t2 < r@.len() implies (#[trigger] r@[t1])@
                != (#[trigger] r@[t2])@ by {
                assert(entries_view(self.lobbies.lobbies@)[t1].0 == self.lobbies.lobbies@[t1].0@);
                assert(entries_view(self.lobbies.lobbies@)[t2].0 == self.lobbies.lobbies@[t2].0@);
            }
        }
        r
    }

    /// `PlayersInLobby`: the members of the named lobby; an unknown lobby
    /// answers with the empty list, not an error.
    pub fn players_in_lobby(&self, req: &PlayersInLobby) -> (r: Vec<PlayerId>)
        requires
            self.inv(),
        ensures
            self.lobbies_map().dom().contains(req.lobby_name@) ==> r@.to_set()
                == self.lobbies_map()[req.lobby_name@] && r@.no_duplicates(),
            !self.lobbies_map().dom().contains(req.lobby_name@) ==> r@ == Seq::<PlayerId>::empty(),
    {
        let mut r: Vec<PlayerId> = Vec::new();
        let idx = self.find_lobby(&req.lobby_name);
        match idx {
            None => {
                proof {
                    assert(r@ =~= Seq::<PlayerId>::empty());
                }
                r
            }
            Some(i) => {
                let members = &self.lobbies.lobbies[i].1;
                let mut j: usize = 0;
                while j < members.len()
                    invariant
                        j <= members@.len(),
                        r@ == members@.subrange(0, j as int),
                    decreases members@.len() - j,
                {
                    r.push(members[j]);
                    proof {
                        assert(r@ =~= members@.subrange(0, j as int + 1));
                    }
                    j += 1;
                }
                proof {
                    assert(r@ =~= members@);
                }
                r
            }
        }
    }

    /// Who receives a message sent to a lobby: every member except the
    /// sender. An unknown lobby has no recipients.
    pub fn broadcast_targets(&self, lobby_name: &String, skip_id: PlayerId) -> (r: Vec<PlayerId>)
        requires
            self.inv(),
        ensures
            self.lobbies_map().dom().contains(lobby_name@) ==> r@.to_set()
                == self.lobbies_map()[lobby_name@].remove(skip_id) && r@.no_duplicates(),
            !self.lobbies_map().dom().contains(lobby_name@) ==> r@ == Seq::<PlayerId>::empty(),
    {
        let mut r: Vec<PlayerId> = Vec::new();
        let idx = self.find_lobby(lobby_name);
        match idx {
            None => {
                proof {
                    assert(r@ =~= Seq::<PlayerId>::empty());
                }
                r
            }
            Some(i) => {
                let members = &self.lobbies.lobbies[i].1;
                let mut j: usize = 0;
                while j < members.len()
                    invariant
                        j <= members@.len(),
                        members@.no_duplicates(),
                        r@.no_duplicates(),
                        forall|x: PlayerId|
                            #[trigger] r@.contains(x) <==> (members@.subrange(0, j as int).contains(
                                x,
                            ) && x != skip_id),
                    decreases members@.len() - j,
                {
                    let ghost prefix = members@.subrange(0, j as int);
                    proof {
                        assert(members@.subrange(0, j as int + 1) =~= prefix.push(
                            members@[j as int],
                        ));
                    }
                    let ghost r_prev = r@;
                    let member = members[j];
                    if member != skip_id {
                        proof {
                            // A member appears once, so it is not in the
                            // prefix and cannot be in `r` yet.
                            assert(!prefix.contains(member)) by {
                                if prefix.contains(member) {
                                    let t = choose|t: int|
                                        0 <= t < prefix.len() && prefix[t] == member;
                                    assert(members@[t] == members@[j as int]);
                                }
                            }
                        }
                        r.push(member);
                        proof {
                            assert(!r_prev.contains(member));
                            assert(r@ =~= r_prev.push(member));
                            assert(r@.no_duplicates()) by {
                                assert(forall|t: int| 0 <= t < r_prev.len() ==> r@[t] == r_prev[t]);
                                assert(r@[r@.len() - 1] == member);
                            }
                            assert forall|x: PlayerId| #[trigger]
                                r@.contains(x) <==> (prefix.push(members@[j as int]).contains(x)
                                && x != skip_id) by {
                                if r@.contains(x) {
                                    let t = choose|t: int| 0 <= t < r@.len() && r@[t] == x;
                                    if t < r_prev.len() {
                                        assert(r_prev.contains(x));
                                    } else {
                                        assert(x == member);
                                        assert(prefix.push(members@[j as int])[prefix.len() as int]
                                            == member);
                                    }
                                }
                                if prefix.push(members@[j as int]).contains(x) && x != skip_id {
                                    let t = choose|t: int|
                                        0 <= t < prefix.push(members@[j as int]).len()
                                            && prefix.push(members@[j as int])[t] == x;
                                    if t < prefix.len() {
                                        assert(prefix.contains(x));
                                        assert(r_prev.contains(x));
                                        let u = choose|u: int|
                                            0 <= u < r_prev.len() && r_prev[u] == x;
                                        assert(r@[u] == x);
                                    } else {
                                        assert(x == member);
                                        assert(r@[r@.len() - 1] == x);
                                    }
                                }
                            }
                        }
                    } else {
                        proof {
                            assert forall|x: PlayerId| #[trigger]
                                r@.contains(x) <==> (prefix.push(members@[j as int]).contains(x)
                                && x != skip_id) by {
                                if prefix.push(members@[j as int]).contains(x) && x != skip_id {
                                    let t = choose|t: int|
                                        0 <= t < prefix.push(members@[j as int]).len()
                                            && prefix.push(members@[j as int])[t] == x;
                                    if t < prefix.len() {
                                        assert(prefix.contains(x));
                                    } else {
                                        assert(x == members@[j as int]);
                                        assert(false);
                                    }
                                }
                            }
                        }
                    }
                    j += 1;
                }
                proof {
                    assert(members@.subrange(0, members@.len() as int) =~= members@);
                    assert(r@.to_set() =~= self.lobbies_map()[lobby_name@].remove(skip_id));
                }
                r
            }
        }
    }

    /// Index of the lobby with this name, if any.
    fn find_lobby(&self, name: &String) -> (r: Option<usize>)
        requires
            self.inv(),
        ensures
            match r {
                Some(i) => i < self.lobbies.lobbies@.len() && self.lobbies.lobbies@[i as int].0@
                    == name@ && self.lobbies_map().dom().contains(name@)
                    && self.lobbies_map()[name@] == self.lobbies.lobbies@[i as int].1@.to_set()
                    && self.lobbies.lobbies@[i as int].1@.no_duplicates(),
                None => !self.lobbies_map().dom().contains(name@),
            },
    {
        let mut i: usize = 0;
        while i < self.lobbies.lobbies.len()
            invariant
                self.inv(),
                i <= self.lobbies.lobbies@.len(),
                forall|j: int| 0 <= j < i ==> (#[trigger] self.lobbies.lobbies@[j]).0@ != name@,
            decreases self.lobbies.lobbies@.len() - i,
        {
            if self.lobbies.lobbies[i].0 == *name {
                proof {
                    assert(entries_view(self.lobbies.lobbies@)[i as int] == (
                        self.lobbies.lobbies@[i as int].0@,
                        self.lobbies.lobbies@[i as int].1,
                    ));
                    lemma_kv_index(entries_view(self.lobbies.lobbies@), i as int);
                }
                return Some(i);
            }
            i += 1;
        }
        proof {
            lemma_kv_dom(entries_view(self.lobbies.lobbies@));
            assert(forall|j: int|
                0 <= j < self.lobbies.lobbies@.len() ==> (#[trigger] entries_view(
                    self.lobbies.lobbies@,
                )[j]).0 != name@);
        }
        None
    }
}

} // verus!
