use starblazers::communication::{
    CheckExistingConnection, CreateLobbyRequest, DeleteState, Disconnect, GameState, GetState,
    JoinLobbyRequest, LeaveLobbyRequest, PlayersInLobby, RegisterWebSocket, SetState,
    SynchronizeState, TransitionEvent, UpdateState, WebSocketMessage, WebsocketAuthJwt,
};
use starblazers::ids::{ConnectionId, GameId, LobbyId, PlayerId};
use starblazers::lobby_manager::LobbyManager;
use starblazers::multiplayer_error::ServiceError;
use starblazers::user_state::{UserEvent, UserState};
use starblazers::user_state_manager::UserStateManager;
use starblazers::ws_session::{FrameAction, HeartbeatAction, OutboundMessage, SocketFrame, WsSession};

const P_STR: &str = "550e8400-e29b-41d4-a716-446655440000";

fn player() -> PlayerId {
    PlayerId(uuid::Uuid::parse_str(P_STR).unwrap().as_u128())
}

#[test]
fn transition_table_moves_between_states() {
    let p = player();
    let mut s = UserState::Authenticated { player_id: p };
    s.transition(UserEvent::JoinLobby(LobbyId(7)));
    assert_eq!(s, UserState::InLobby { player_id: p, lobby_id: LobbyId(7) });
    s.transition(UserEvent::Exit);
    assert_eq!(s, UserState::Authenticated { player_id: p });
    s.transition(UserEvent::StartGame(GameId(9)));
    assert_eq!(s, UserState::InGame { player_id: p, game_id: GameId(9) });
    s.transition(UserEvent::Exit);
    assert_eq!(s, UserState::Authenticated { player_id: p });
}

#[test]
fn unlisted_transitions_leave_state_unchanged() {
    let p = player();
    let states = [
        UserState::Authenticated { player_id: p },
        UserState::InLobby { player_id: p, lobby_id: LobbyId(7) },
        UserState::InGame { player_id: p, game_id: GameId(9) },
    ];
    let events = [
        UserEvent::Login(p),
        UserEvent::Logout,
        UserEvent::JoinLobby(LobbyId(4)),
        UserEvent::StartGame(GameId(5)),
        UserEvent::Exit,
    ];
    for before in states.iter() {
        for event in events.iter() {
            let listed = matches!(
                (before, event),
                (UserState::Authenticated { .. }, UserEvent::JoinLobby(_))
                    | (UserState::InLobby { .. }, UserEvent::Exit)
                    | (UserState::Authenticated { .. }, UserEvent::StartGame(_))
                    | (UserState::InGame { .. }, UserEvent::Exit)
            );
            if !listed {
                let mut s = *before;
                s.transition(*event);
                assert_eq!(s, *before);
            }
        }
    }
}

#[test]
fn reconnect_migrates_session() {
    let p = player();
    let a = ConnectionId(1);
    let b = ConnectionId(2);
    let mut usm = UserStateManager::new();
    usm.register_web_socket(RegisterWebSocket { connection_id: a, user_id: p });
    usm.transition_event(TransitionEvent {
        connection_id: a,
        event: UserEvent::JoinLobby(LobbyId(7)),
    });
    let state_on_a = usm.get_state(GetState { connection_id: a }).unwrap();

    let migrated =
        usm.check_existing_connection(CheckExistingConnection { connection_id: b, user_id: p });
    assert!(migrated);
    assert_eq!(usm.get_state(GetState { connection_id: b }), Some(state_on_a));
    assert_eq!(usm.get_state(GetState { connection_id: a }), None);
}

#[test]
fn check_existing_connection_without_session_is_false() {
    let p = player();
    let b = ConnectionId(2);
    let mut usm = UserStateManager::new();
    let migrated =
        usm.check_existing_connection(CheckExistingConnection { connection_id: b, user_id: p });
    assert!(!migrated);
    assert_eq!(usm.get_state(GetState { connection_id: b }), None);
}

#[test]
fn duplicate_login_is_refused() {
    let p = player();
    let a = ConnectionId(1);
    let c = ConnectionId(3);
    let mut usm = UserStateManager::new();
    usm.register_web_socket(RegisterWebSocket { connection_id: a, user_id: p });
    usm.transition_event(TransitionEvent { connection_id: c, event: UserEvent::Login(p) });
    assert_eq!(usm.get_state(GetState { connection_id: c }), None);
    assert_eq!(
        usm.get_state(GetState { connection_id: a }),
        Some(UserState::Authenticated { player_id: p })
    );
}

#[test]
fn transition_for_unknown_connection_is_dropped() {
    let mut usm = UserStateManager::new();
    usm.transition_event(TransitionEvent {
        connection_id: ConnectionId(42),
        event: UserEvent::JoinLobby(LobbyId(7)),
    });
    assert_eq!(usm.get_state(GetState { connection_id: ConnectionId(42) }), None);
}

#[test]
fn set_state_requires_registration() {
    let p = player();
    let a = ConnectionId(1);
    let mut usm = UserStateManager::new();
    let refused = usm.set_state(SetState {
        connection_id: a,
        state: UserState::Authenticated { player_id: p },
    });
    assert!(matches!(refused, Err(ServiceError::ConnectionNotRegistered(c)) if c == a));

    usm.register_web_socket(RegisterWebSocket { connection_id: a, user_id: p });
    let accepted = usm.set_state(SetState {
        connection_id: a,
        state: UserState::InGame { player_id: p, game_id: GameId(9) },
    });
    assert!(accepted.is_ok());
    assert_eq!(
        usm.get_state(GetState { connection_id: a }),
        Some(UserState::InGame { player_id: p, game_id: GameId(9) })
    );
}

#[test]
fn update_state_requires_registration() {
    let p = player();
    let a = ConnectionId(1);
    let mut usm = UserStateManager::new();
    let refused = usm.update_state(UpdateState {
        connection_id: a,
        state: UserState::Authenticated { player_id: p },
    });
    assert!(matches!(refused, Err(ServiceError::ConnectionNotRegistered(c)) if c == a));

    usm.register_web_socket(RegisterWebSocket { connection_id: a, user_id: p });
    let accepted = usm.update_state(UpdateState {
        connection_id: a,
        state: UserState::InLobby { player_id: p, lobby_id: LobbyId(7) },
    });
    assert!(accepted.is_ok());
    assert_eq!(
        usm.get_state(GetState { connection_id: a }),
        Some(UserState::InLobby { player_id: p, lobby_id: LobbyId(7) })
    );
}

#[test]
fn delete_state_removes_session_and_history() {
    let p = player();
    let a = ConnectionId(1);
    let mut usm = UserStateManager::new();

    let refused = usm.delete_state(DeleteState { connection_id: a });
    assert!(matches!(refused, Err(ServiceError::StateNotRegistered(c)) if c == a));

    usm.register_web_socket(RegisterWebSocket { connection_id: a, user_id: p });
    assert!(usm.push_game_state(snapshot(3, 4)));

    let deleted = usm.delete_state(DeleteState { connection_id: a });
    assert!(deleted.is_ok());
    assert_eq!(usm.get_state(GetState { connection_id: a }), None);
    // The player's history went with the session: a new snapshot has nowhere
    // to go.
    assert!(!usm.push_game_state(snapshot(5, 6)));
}

#[test]
fn disconnect_never_fails() {
    let p = player();
    let a = ConnectionId(1);
    let mut usm = UserStateManager::new();
    usm.disconnect(Disconnect { connection_id: a });
    usm.register_web_socket(RegisterWebSocket { connection_id: a, user_id: p });
    usm.disconnect(Disconnect { connection_id: a });
    assert_eq!(usm.get_state(GetState { connection_id: a }), None);
}

fn snapshot(x: usize, y: usize) -> GameState {
    GameState {
        position_x: x,
        position_y: y,
        player_id: player(),
        timestamp: "2024-01-01T00:00:00Z".to_string(),
    }
}

#[test]
fn game_state_snapshots_roll_over() {
    let p = player();
    let a = ConnectionId(1);
    let mut usm = UserStateManager::new();
    usm.register_web_socket(RegisterWebSocket { connection_id: a, user_id: p });
    for k in 0..7 {
        assert!(usm.push_game_state(snapshot(k, k)));
    }
    // A fresh registration starts the history over.
    usm.register_web_socket(RegisterWebSocket { connection_id: a, user_id: p });
    assert!(usm.push_game_state(snapshot(9, 9)));
}

#[test]
fn lobby_lifecycle() {
    let p = player();
    let mut lm = LobbyManager::new();

    let first = lm.create_lobby_request(CreateLobbyRequest {
        lobby_name: "x".to_string(),
        player_id: P_STR.to_string(),
    });
    assert!(first.is_ok());

    let again = lm.lobbies.new_lobby("x".to_string());
    assert!(matches!(again, Err(ServiceError::LobbyAlreadyExists)));

    let add = lm.lobbies.add_player_to(p, "x".to_string());
    assert!(add.is_ok());

    let remove = lm.lobbies.remove_player_from_lobby(p, "x".to_string());
    assert!(remove.is_ok());

    let names = lm.list_lobbies();
    assert!(!names.iter().any(|n| n == "x"));
}

#[test]
fn player_records_follow_membership() {
    let p = player();
    let mut lm = LobbyManager::new();
    lm.lobbies.new_lobby("x".to_string()).unwrap();
    assert!(lm.lobbies.player_to_lobby.is_empty());

    lm.lobbies.add_player_to(p, "x".to_string()).unwrap();
    assert_eq!(lm.lobbies.player_to_lobby.len(), 1);
    assert_eq!(lm.lobbies.player_to_lobby[0].0, p);
    assert_eq!(lm.lobbies.player_to_lobby[0].1, "x");

    // A refused add leaves the records untouched.
    let refused = lm.lobbies.add_player_to(p, "nowhere".to_string());
    assert!(refused.is_err());
    assert_eq!(lm.lobbies.player_to_lobby.len(), 1);

    lm.lobbies.remove_player_from_lobby(p, "x".to_string()).unwrap();
    assert!(lm.lobbies.player_to_lobby.is_empty());
}

#[test]
fn listing_names_lobbies_once() {
    let p = player();
    let mut lm = LobbyManager::new();
    lm.lobbies.new_lobby("alpha".to_string()).unwrap();
    lm.lobbies.new_lobby("beta".to_string()).unwrap();
    lm.lobbies.add_player_to(p, "alpha".to_string()).unwrap();
    lm.lobbies.add_player_to(p, "beta".to_string()).unwrap();

    let mut names = lm.list_lobbies();
    names.sort();
    assert_eq!(names, vec!["alpha".to_string(), "beta".to_string()]);

    let empties = lm.lobbies.empty_lobbies();
    assert!(empties.is_empty());
}

#[test]
fn lobby_registry_refusals() {
    let p = player();
    let mut lm = LobbyManager::new();

    let no_lobby = lm.lobbies.add_player_to(p, "nowhere".to_string());
    assert!(matches!(no_lobby, Err(ServiceError::LobbyDoesNotExist(n)) if n == "nowhere"));

    lm.lobbies.new_lobby("y".to_string()).unwrap();
    let not_member = lm.lobbies.remove_player_from_lobby(p, "y".to_string());
    assert!(matches!(not_member, Err(ServiceError::PlayerIsNotInLobby(n)) if n == "y"));

    let bad_uuid = lm.create_lobby_request(CreateLobbyRequest {
        lobby_name: "z".to_string(),
        player_id: "not-a-uuid".to_string(),
    });
    assert!(matches!(bad_uuid, Err(ServiceError::PlayerIdIsNotUuid(s)) if s == "not-a-uuid"));

    let members = lm.players_in_lobby(&PlayersInLobby { lobby_name: "nowhere".to_string() });
    assert!(members.is_empty());
}

#[test]
fn join_and_leave_requests_update_membership() {
    let p = player();
    let mut lm = LobbyManager::new();
    lm.lobbies.new_lobby("arena".to_string()).unwrap();

    let joined = lm.join_lobby_request(JoinLobbyRequest {
        lobby_name: "arena".to_string(),
        player_id: P_STR.to_string(),
    });
    assert!(joined.is_ok());
    assert_eq!(
        lm.players_in_lobby(&PlayersInLobby { lobby_name: "arena".to_string() }),
        vec![p]
    );

    let left = lm.leave_lobby_request(LeaveLobbyRequest {
        lobby_name: "arena".to_string(),
        player_id: P_STR.to_string(),
    });
    assert!(left.is_ok());
    // Leaving pruned the now-empty lobby.
    assert!(lm.list_lobbies().is_empty());
}

#[test]
fn broadcast_excludes_the_sender() {
    let p = player();
    let other = PlayerId(7);
    let mut lm = LobbyManager::new();
    lm.lobbies.new_lobby("main".to_string()).unwrap();
    lm.lobbies.add_player_to(p, "main".to_string()).unwrap();
    lm.lobbies.add_player_to(other, "main".to_string()).unwrap();

    let targets = lm.broadcast_targets(&"main".to_string(), p);
    assert_eq!(targets, vec![other]);

    let nowhere = lm.broadcast_targets(&"nowhere".to_string(), p);
    assert!(nowhere.is_empty());
}

#[test]
fn heartbeat_pings_until_timeout() {
    let p = player();
    let session = WsSession {
        user_state: UserState::Authenticated { player_id: p },
        user_id: p,
        connection_id: ConnectionId(1),
        hb: 100,
    };
    match session.check_heartbeat(109) {
        HeartbeatAction::Ping { sync } => {
            assert_eq!(sync, SynchronizeState { state: UserState::Authenticated { player_id: p } });
        }
        HeartbeatAction::Stop => panic!("expected a ping within the timeout"),
    }
    assert_eq!(session.check_heartbeat(110), HeartbeatAction::Stop);
}

#[test]
fn frames_drive_heartbeat_and_dispatch() {
    let p = player();
    let mut session = WsSession {
        user_state: UserState::Authenticated { player_id: p },
        user_id: p,
        connection_id: ConnectionId(1),
        hb: 0,
    };
    let action = session.handle_frame(SocketFrame::Ping(vec![1, 2]), 50);
    assert!(matches!(action, FrameAction::Pong(payload) if payload == vec![1, 2]));
    assert_eq!(session.hb, 50);

    let action = session.handle_frame(SocketFrame::Pong, 60);
    assert!(matches!(action, FrameAction::Idle));
    assert_eq!(session.hb, 60);

    let action = session.handle_frame(SocketFrame::Text("{\"type\":\"Auth\"}".to_string()), 61);
    assert!(matches!(action, FrameAction::Parse(t) if t == "{\"type\":\"Auth\"}"));

    assert!(matches!(session.handle_frame(SocketFrame::Close, 62), FrameAction::CloseAndStop));
    assert!(matches!(session.handle_frame(SocketFrame::Error, 63), FrameAction::Stop));
    assert!(matches!(session.handle_frame(SocketFrame::Continuation, 64), FrameAction::Stop));
    assert!(matches!(session.handle_frame(SocketFrame::Binary(vec![0]), 65), FrameAction::Idle));
    assert!(matches!(session.handle_frame(SocketFrame::Nop, 66), FrameAction::Idle));
}

#[test]
fn dispatch_routes_messages_and_transitions() {
    let p = player();
    let mut session = WsSession {
        user_state: UserState::Authenticated { player_id: p },
        user_id: p,
        connection_id: ConnectionId(1),
        hb: 0,
    };

    let auth = session.handle_message(WebSocketMessage::Auth(WebsocketAuthJwt {
        jwt: "token".to_string(),
    }));
    assert!(matches!(auth, OutboundMessage::Authenticate(a) if a.jwt == "token"));
    assert_eq!(session.user_state, UserState::Authenticated { player_id: p });

    let join = session.handle_message(WebSocketMessage::JoinLobby(JoinLobbyRequest {
        lobby_name: P_STR.to_string(),
        player_id: P_STR.to_string(),
    }));
    assert!(matches!(join, OutboundMessage::JoinLobby(_)));
    assert_eq!(session.user_state, UserState::InLobby { player_id: p, lobby_id: LobbyId(p.0) });

    let leave = session.handle_message(WebSocketMessage::LeaveLobby(LeaveLobbyRequest {
        lobby_name: P_STR.to_string(),
        player_id: P_STR.to_string(),
    }));
    assert!(matches!(leave, OutboundMessage::LeaveLobby(_)));
    assert_eq!(session.user_state, UserState::Authenticated { player_id: p });
}

#[test]
fn join_without_lobby_uuid_keeps_cached_state() {
    let p = player();
    let mut session = WsSession {
        user_state: UserState::Authenticated { player_id: p },
        user_id: p,
        connection_id: ConnectionId(1),
        hb: 0,
    };
    let join = session.handle_message(WebSocketMessage::JoinLobby(JoinLobbyRequest {
        lobby_name: "main".to_string(),
        player_id: P_STR.to_string(),
    }));
    // The membership request still goes out by name...
    assert!(matches!(join, OutboundMessage::JoinLobby(req) if req.lobby_name == "main"));
    // ...but the offending transition is rejected: the cached state stays.
    assert_eq!(session.user_state, UserState::Authenticated { player_id: p });
}

#[test]
fn end_to_end_lobby_scenario() {
    let p = player();
    let a = ConnectionId(1);
    let mut usm = UserStateManager::new();
    let mut lm = LobbyManager::new();

    // The connection registers as player P.
    usm.register_web_socket(RegisterWebSocket { connection_id: a, user_id: p });
    assert_eq!(
        usm.get_state(GetState { connection_id: a }),
        Some(UserState::Authenticated { player_id: p })
    );
    let mut session = WsSession {
        user_state: usm.get_state(GetState { connection_id: a }).unwrap(),
        user_id: p,
        connection_id: a,
        hb: 0,
    };

    // The client creates the lobby "main".
    let out = session.handle_message(WebSocketMessage::CreateLobby(CreateLobbyRequest {
        lobby_name: "main".to_string(),
        player_id: P_STR.to_string(),
    }));
    match out {
        OutboundMessage::CreateLobby(req) => lm.create_lobby_request(req).unwrap(),
        _ => panic!("expected a CreateLobby message"),
    }
    assert!(matches!(session.user_state, UserState::InLobby { player_id, .. } if player_id == p));
    assert_eq!(lm.players_in_lobby(&PlayersInLobby { lobby_name: "main".to_string() }), vec![p]);

    // The client leaves the lobby.
    let out = session.handle_message(WebSocketMessage::LeaveLobby(LeaveLobbyRequest {
        lobby_name: "main".to_string(),
        player_id: P_STR.to_string(),
    }));
    match out {
        OutboundMessage::LeaveLobby(req) => lm.leave_lobby_request(req).unwrap(),
        _ => panic!("expected a LeaveLobby message"),
    }
    assert_eq!(session.user_state, UserState::Authenticated { player_id: p });
    assert!(lm.players_in_lobby(&PlayersInLobby { lobby_name: "main".to_string() }).is_empty());
    assert!(!lm.list_lobbies().iter().any(|n| n == "main"));
}

#[test]
fn service_error_messages() {
    assert_eq!(
        ServiceError::PlayerIdIsNotUuid("a".to_string()).message(),
        "player id is not a valid uuid"
    );
    assert_eq!(
        ServiceError::LobbyDoesNotExist("a".to_string()).message(),
        "lobby does not exist"
    );
    assert_eq!(ServiceError::LobbyAlreadyExists.message(), "lobby already exists");
    assert_eq!(
        ServiceError::PlayerIsNotInLobby("a".to_string()).message(),
        "player is not in this lobby"
    );
    assert_eq!(
        ServiceError::ConnectionNotRegistered(ConnectionId(1)).message(),
        "the connection is not currently registered"
    );
    assert_eq!(
        ServiceError::StateNotRegistered(ConnectionId(1)).message(),
        "the connection does not have a registered state"
    );
}
