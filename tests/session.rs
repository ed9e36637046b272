use ndoors::session::{
    create_room, handle_in_room, list_rooms, room_not_found, route, Binding, Delivery,
    GameRequest, GameResponse, Index, Recipient, Role, RoomInfo, Route, ServerError,
};
use ndoors::{Decision, Error, Room, RoomState, Settings};
use uuid::Uuid;

fn refused(cause: Error) -> Vec<Delivery> {
    vec![Delivery { to: Recipient::Requester, response: GameResponse::GameError { cause } }]
}

fn everyone(response: GameResponse) -> Vec<Delivery> {
    vec![Delivery { to: Recipient::Everyone, response }]
}

/// A room with a host and a contestant who has joined.
fn hosted_room(settings: Settings) -> (Uuid, Role, Uuid, Role, Room) {
    let host = Uuid::new_v4();
    let mut host_role = Role::Guest;
    let (room, response) = create_room(host, &mut host_role, Some(settings), Settings::new(3, 10));
    let mut room = room.unwrap();
    assert_eq!(response, GameResponse::RoomCreated { info: RoomInfo::new(*room.id(), settings) });
    assert_eq!(host_role, Role::Host { room_id: *room.id() });
    let contestant = Uuid::new_v4();
    let mut contestant_role = Role::Guest;
    assert_eq!(
        route(&contestant_role, &GameRequest::EnterRoom { id: *room.id() }),
        Route::Room { id: *room.id() }
    );
    let o = handle_in_room(
        contestant,
        &mut contestant_role,
        GameRequest::EnterRoom { id: *room.id() },
        &mut room,
    );
    assert_eq!(
        o.deliveries,
        vec![
            Delivery {
                to: Recipient::Host,
                response: GameResponse::RoomEntered { contestant_id: contestant },
            },
            Delivery {
                to: Recipient::Requester,
                response: GameResponse::ContestantRoomEntered {
                    info: RoomInfo::new(*room.id(), settings),
                },
            },
        ]
    );
    assert_eq!(o.binding, Binding::Bind);
    assert_eq!(contestant_role, Role::Contestant { room_id: *room.id() });
    (host, host_role, contestant, contestant_role, room)
}

#[test]
fn guest_ready_is_refused() {
    let guest = Role::Guest;
    assert_eq!(
        route(&guest, &GameRequest::Ready { ready: true }),
        Route::Reply { response: GameResponse::GameError { cause: Error::InvalidOperation } }
    );
    // even when it reaches a room, it changes nothing
    let (_, _, _, _, mut room) = hosted_room(Settings::new(3, 1));
    let before = format!("{:?}", room);
    let mut role = Role::Guest;
    let o = handle_in_room(Uuid::new_v4(), &mut role, GameRequest::Ready { ready: true }, &mut room);
    assert_eq!(o.deliveries, refused(Error::InvalidOperation));
    assert_eq!(role, Role::Guest);
    assert_eq!(format!("{:?}", room), before);
}

#[test]
fn contestant_start_is_refused() {
    let (_, _, contestant, mut role, mut room) = hosted_room(Settings::new(3, 1));
    let o = handle_in_room(contestant, &mut role, GameRequest::Ready { ready: true }, &mut room);
    assert_eq!(o.deliveries, everyone(GameResponse::Ready { ready: true }));
    let before = format!("{:?}", room);
    let o = handle_in_room(
        contestant,
        &mut role,
        GameRequest::Start { prize: Index::Specified(0) },
        &mut room,
    );
    assert_eq!(o.deliveries, refused(Error::InvalidOperation));
    assert_eq!(o.binding, Binding::Keep);
    assert!(!o.remove_room);
    assert_eq!(role, Role::Contestant { room_id: *room.id() });
    assert_eq!(format!("{:?}", room), before);
}

#[test]
fn host_player_requests_are_refused() {
    let (host, mut role, _, _, mut room) = hosted_room(Settings::new(3, 1));
    for request in [
        GameRequest::Ready { ready: true },
        GameRequest::Choose { chosen: Index::Random },
        GameRequest::Decide { decision: Decision::Stick },
    ] {
        let o = handle_in_room(host, &mut role, request, &mut room);
        assert_eq!(o.deliveries, refused(Error::InvalidOperation));
    }
    assert_eq!(
        route(&role, &GameRequest::CreateRoom { settings: None }),
        Route::Reply { response: GameResponse::GameError { cause: Error::InvalidOperation } }
    );
    assert_eq!(
        route(&role, &GameRequest::EnterRoom { id: *room.id() }),
        Route::Reply { response: GameResponse::GameError { cause: Error::InvalidOperation } }
    );
    assert_eq!(route(&role, &GameRequest::ListRooms { page: 1, size: 2 }), Route::ListRooms {
        page: 1,
        size: 2,
    });
}

#[test]
fn full_round_through_dispatcher() {
    let (host, mut host_role, contestant, mut c_role, mut room) = hosted_room(Settings::new(3, 1));
    handle_in_room(contestant, &mut c_role, GameRequest::Ready { ready: true }, &mut room);
    let o = handle_in_room(
        host,
        &mut host_role,
        GameRequest::Start { prize: Index::Specified(0) },
        &mut room,
    );
    assert_eq!(
        o.deliveries,
        vec![
            Delivery {
                to: Recipient::Host,
                response: GameResponse::Started { prize: 0, random: false },
            },
            Delivery {
                to: Recipient::Contestant,
                response: GameResponse::ContestantStarted { random: false },
            },
        ]
    );
    let o = handle_in_room(
        contestant,
        &mut c_role,
        GameRequest::Choose { chosen: Index::Specified(1) },
        &mut room,
    );
    assert_eq!(o.deliveries, everyone(GameResponse::Chosen { chosen: 1, random: false }));
    let o = handle_in_room(
        host,
        &mut host_role,
        GameRequest::Reveal { left: Index::Specified(2) },
        &mut room,
    );
    assert_eq!(o.deliveries, refused(Error::InvalidOperation));
    let o = handle_in_room(host, &mut host_role, GameRequest::Reveal { left: Index::Random }, &mut room);
    assert_eq!(o.deliveries, everyone(GameResponse::Revealed { left: 0, random: true }));
    let o = handle_in_room(
        contestant,
        &mut c_role,
        GameRequest::Decide { decision: Decision::Switch },
        &mut room,
    );
    match &o.deliveries[..] {
        [Delivery { to: Recipient::Everyone, response: GameResponse::Decided { result } }] => {
            assert!(result.win());
        }
        other => panic!("unexpected deliveries {:?}", other),
    }
    let o = handle_in_room(
        host,
        &mut host_role,
        GameRequest::Complete { kick_contestant: true },
        &mut room,
    );
    assert_eq!(o.binding, Binding::Unbind);
    match &o.deliveries[..] {
        [Delivery { to: Recipient::Everyone, response: GameResponse::Completed { result } }] => {
            assert_eq!(result.settings(), Settings::new(3, 1));
            assert_eq!(result.win(), 1);
            assert_eq!(result.switch_win(), 1);
        }
        other => panic!("unexpected deliveries {:?}", other),
    }
    // the kicked contestant is told it left and becomes a guest
    let o = handle_in_room(contestant, &mut c_role, GameRequest::Ready { ready: true }, &mut room);
    assert_eq!(
        o.deliveries,
        vec![Delivery {
            to: Recipient::Requester,
            response: GameResponse::Exited { user_id: contestant },
        }]
    );
    assert_eq!(c_role, Role::Guest);
}

#[test]
fn host_exit_then_contestant_finds_no_room() {
    let (host, mut host_role, contestant, mut c_role, mut room) = hosted_room(Settings::new(3, 2));
    handle_in_room(contestant, &mut c_role, GameRequest::Ready { ready: true }, &mut room);
    handle_in_room(host, &mut host_role, GameRequest::Start { prize: Index::Random }, &mut room);
    let room_id = *room.id();
    let o = handle_in_room(host, &mut host_role, GameRequest::ExitRoom { id: room_id }, &mut room);
    assert!(o.remove_room);
    assert_eq!(o.deliveries, everyone(GameResponse::Exited { user_id: host }));
    assert_eq!(host_role, Role::Guest);
    // the registry drops the room; the contestant's next request addresses it
    let request = GameRequest::Choose { chosen: Index::Specified(0) };
    assert_eq!(route(&c_role, &request), Route::Room { id: room_id });
    let response = room_not_found(&mut c_role, room_id);
    assert_eq!(response, GameResponse::ServerError { cause: ServerError::RoomNotFound { id: room_id } });
    assert_eq!(c_role, Role::Guest);
}

#[test]
fn contestant_exit_clears_binding() {
    let (_, _, contestant, mut c_role, mut room) = hosted_room(Settings::new(3, 1));
    let room_id = *room.id();
    let o = handle_in_room(contestant, &mut c_role, GameRequest::ExitRoom { id: room_id }, &mut room);
    assert_eq!(o.deliveries, everyone(GameResponse::Exited { user_id: contestant }));
    assert_eq!(o.binding, Binding::Unbind);
    assert!(!o.remove_room);
    assert_eq!(c_role, Role::Guest);
    assert!(matches!(room.state(), RoomState::Created));
}

#[test]
fn settings_update_scenario() {
    let (host, mut host_role, contestant, mut c_role, mut room) = hosted_room(Settings::new(3, 5));
    handle_in_room(contestant, &mut c_role, GameRequest::Ready { ready: true }, &mut room);
    let o = handle_in_room(
        host,
        &mut host_role,
        GameRequest::UpdateSettings { settings: Settings::new(3, 5) },
        &mut room,
    );
    assert_eq!(
        o.deliveries,
        vec![Delivery {
            to: Recipient::Requester,
            response: GameResponse::SettingsUpdated { notify: false, settings: Settings::new(3, 5) },
        }]
    );
    assert!(matches!(room.state(), RoomState::Joined { ready: true, .. }));
    let o = handle_in_room(
        host,
        &mut host_role,
        GameRequest::UpdateSettings { settings: Settings::new(4, 5) },
        &mut room,
    );
    assert_eq!(
        o.deliveries,
        everyone(GameResponse::SettingsUpdated { notify: true, settings: Settings::new(4, 5) })
    );
    assert!(matches!(room.state(), RoomState::Joined { ready: false, .. }));
    assert_eq!(room.settings(), Settings::new(4, 5));
}

#[test]
fn start_errors_reach_requester_only() {
    let (host, mut host_role, _, _, mut room) = hosted_room(Settings::new(3, 1));
    let o = handle_in_room(
        host,
        &mut host_role,
        GameRequest::Start { prize: Index::Specified(9) },
        &mut room,
    );
    assert_eq!(o.deliveries, refused(Error::InvalidDoorIndex));
    let o = handle_in_room(host, &mut host_role, GameRequest::Start { prize: Index::Random }, &mut room);
    assert_eq!(o.deliveries, refused(Error::InvalidOperation));
}

#[test]
fn second_contestant_is_refused() {
    let (_, _, _, _, mut room) = hosted_room(Settings::new(3, 1));
    let mut role = Role::Guest;
    let o = handle_in_room(
        Uuid::new_v4(),
        &mut role,
        GameRequest::EnterRoom { id: *room.id() },
        &mut room,
    );
    assert_eq!(o.deliveries, refused(Error::InvalidOperation));
    assert_eq!(o.binding, Binding::Keep);
    assert_eq!(role, Role::Guest);
}

#[test]
fn create_room_rules() {
    let user = Uuid::new_v4();
    let mut role = Role::Guest;
    let (room, response) = create_room(user, &mut role, Some(Settings::new(1, 3)), Settings::new(3, 10));
    assert!(room.is_none());
    assert_eq!(response, GameResponse::GameError { cause: Error::InvalidOperation });
    assert_eq!(role, Role::Guest);
    let (room, _) = create_room(user, &mut role, None, Settings::new(3, 10));
    let room = room.unwrap();
    assert_eq!(room.settings(), Settings::new(3, 10));
    assert_eq!(*room.host(), user);
    let (again, response) = create_room(user, &mut role, None, Settings::new(3, 10));
    assert!(again.is_none());
    assert_eq!(response, GameResponse::GameError { cause: Error::InvalidOperation });
    assert_eq!(role, Role::Host { room_id: *room.id() });
}

#[test]
fn list_rooms_pages() {
    let infos: Vec<RoomInfo> =
        (0..5).map(|i| RoomInfo::new(Uuid::new_v4(), Settings::new(3, i + 1))).collect();
    match list_rooms(1, 2, &infos) {
        GameResponse::RoomList { rooms, page, size, total } => {
            assert_eq!(rooms, infos[2..].to_vec());
            assert_eq!((page, size, total), (1, 2, 5));
        }
        other => panic!("unexpected {:?}", other),
    }
    match list_rooms(3, 2, &infos) {
        GameResponse::RoomList { rooms, total, .. } => {
            assert!(rooms.is_empty());
            assert_eq!(total, 5);
        }
        other => panic!("unexpected {:?}", other),
    }
    match list_rooms(0, 0, &Vec::new()) {
        GameResponse::RoomList { rooms, total, .. } => {
            assert!(rooms.is_empty());
            assert_eq!(total, 0);
        }
        other => panic!("unexpected {:?}", other),
    }
}

#[test]
fn guest_other_requests_are_refused() {
    let guest = Role::Guest;
    for request in [
        GameRequest::Start { prize: Index::Random },
        GameRequest::ExitRoom { id: Uuid::new_v4() },
        GameRequest::Complete { kick_contestant: false },
    ] {
        assert_eq!(
            route(&guest, &request),
            Route::Reply { response: GameResponse::GameError { cause: Error::InvalidOperation } }
        );
    }
    assert_eq!(
        route(&guest, &GameRequest::CreateRoom { settings: None }),
        Route::CreateRoom { settings: None }
    );
}
