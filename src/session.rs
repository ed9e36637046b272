//! The dispatcher: what a connection's request does to its role and to the
//! room it addresses, and which responses go to whom. The caller owns the
//! room registry and the channels; it looks rooms up as `route` says, hands
//! the room to `handle_in_room`, and carries out the returned `Outcome`.
use crate::error::Error;
use crate::room::{
    reveal_ok, Decision, Room, RoomState, RoomStateView, RoomView, RoundResult, Settings, Stage,
};
use crate::stats::{tallies, GameResult};
use uuid::Uuid;
use vstd::prelude::*;

verus! {

/// The part a connection plays; it refers to at most one room.
#[derive(Debug, Clone, Copy, PartialEq, Eq)]
pub enum Role {
    Guest,
    Host { room_id: Uuid },
    Contestant { room_id: Uuid },
}

/// A door index in a request: drawn at random, or given.
#[derive(Debug, Clone, Copy, PartialEq, Eq)]
pub enum Index {
    Random,
    Specified(u32),
}

/// A request of a connection.
#[derive(Debug, Clone, Copy, PartialEq, Eq)]
pub enum GameRequest {
    ListRooms { page: u32, size: u32 },
    EnterRoom { id: Uuid },
    ExitRoom { id: Uuid },
    Ready { ready: bool },
    Choose { chosen: Index },
    Decide { decision: Decision },
    CreateRoom { settings: Option<Settings> },
    UpdateSettings { settings: Settings },
    Start { prize: Index },
    Reveal { left: Index },
    Complete { kick_contestant: bool },
}

/// Errors of the server, as opposed to errors of the game.
#[derive(Debug, Clone, Copy, PartialEq, Eq)]
pub enum ServerError {
    RoomNotFound { id: Uuid },
}

/// What a room list shows of a room.
#[derive(Debug, Clone, Copy, PartialEq, Eq)]
pub struct RoomInfo {
    pub id: Uuid,
    pub settings: Settings,
}

impl RoomInfo {
    pub fn new(id: Uuid, settings: Settings) -> (r: Self)
        ensures
            r.id == id,
            r.settings == settings,
    {
        RoomInfo { id, settings }
    }

    /// The identifier and settings of `room`.
    pub fn from_room(room: &Room) -> (r: Self)
        ensures
            r.id == room@.id,
            r.settings == room@.settings,
    {
        RoomInfo { id: *room.id(), settings: room.settings() }
    }
}

/// A response to a connection, or a notice broadcast to a room.
#[derive(Debug, PartialEq)]
pub enum GameResponse {
    UserCreated { id: Uuid },
    RoomList { rooms: Vec<RoomInfo>, page: u32, size: u32, total: u32 },
    RoomCreated { info: RoomInfo },
    Exited { user_id: Uuid },
    RoomEntered { contestant_id: Uuid },
    ContestantRoomEntered { info: RoomInfo },
    SettingsUpdated { notify: bool, settings: Settings },
    Ready { ready: bool },
    Started { prize: u32, random: bool },
    ContestantStarted { random: bool },
    Chosen { chosen: u32, random: bool },
    Revealed { left: u32, random: bool },
    Decided { result: RoundResult },
    Completed { result: GameResult },
    GameError { cause: Error },
    ServerError { cause: ServerError },
}

/// Who receives a response: the connection that made the request, the
/// room's host, its contestant (if one is bound), or both participants.
#[derive(Debug, Clone, Copy, PartialEq, Eq, Structural)]
pub enum Recipient {
    Requester,
    Host,
    Contestant,
    Everyone,
}

/// One response and its recipient.
#[derive(Debug, PartialEq)]
pub struct Delivery {
    pub to: Recipient,
    pub response: GameResponse,
}

/// What becomes of the requester's channel as the room's contestant channel,
/// once the deliveries have been made.
#[derive(Debug, Clone, Copy, PartialEq, Eq, Structural)]
pub enum Binding {
    Keep,
    Bind,
    Unbind,
}

/// The effects of one request on a room, beyond the room's own state: the
/// responses to deliver in order, the change of the contestant channel, and
/// whether the room leaves the registry once the room is released.
#[derive(Debug, PartialEq)]
pub struct Outcome {
    pub deliveries: Vec<Delivery>,
    pub binding: Binding,
    pub remove_room: bool,
}

/// Where a request goes after the role has been checked.
#[derive(Debug, PartialEq)]
pub enum Route {
    /// List the rooms of the registry.
    ListRooms { page: u32, size: u32 },
    /// Create a room for the requester.
    CreateRoom { settings: Option<Settings> },
    /// Look up the room `id` and hand it to `handle_in_room`.
    Room { id: Uuid },
    /// Answer the requester at once.
    Reply { response: GameResponse },
}

/// The room a connection is bound to, if any.
pub open spec fn role_room(role: Role) -> Option<Uuid> {
    match role {
        Role::Guest => None,
        Role::Host { room_id } => Some(room_id),
        Role::Contestant { room_id } => Some(room_id),
    }
}

/// The requests that each role may make inside a room.
pub open spec fn allowed(role: Role, request: GameRequest) -> bool {
    match role {
        Role::Guest => request is EnterRoom,
        Role::Host { .. } => {
            ||| request is ExitRoom
            ||| request is UpdateSettings
            ||| request is Start
            ||| request is Reveal
            ||| request is Complete
        },
        Role::Contestant { .. } => {
            ||| request is ExitRoom
            ||| request is Ready
            ||| request is Choose
            ||| request is Decide
        },
    }
}

/// The outcome is the single response `response` to the requester.
pub open spec fn only_reply(o: Outcome, response: GameResponse) -> bool {
    &&& o.deliveries@ == seq![Delivery { to: Recipient::Requester, response }]
    &&& o.binding == Binding::Keep
    &&& !o.remove_room
}

/// The outcome is the single response `response` to both participants.
pub open spec fn only_broadcast(o: Outcome, response: GameResponse) -> bool {
    &&& o.deliveries@ == seq![Delivery { to: Recipient::Everyone, response }]
    &&& o.binding == Binding::Keep
    &&& !o.remove_room
}

/// The request was refused with `cause`: nothing changed, and only the
/// requester hears of it.
pub open spec fn refused(
    role: Role,
    room: RoomView,
    role2: Role,
    room2: RoomView,
    o: Outcome,
    cause: Error,
) -> bool {
    role2 == role && room2 == room && only_reply(o, GameResponse::GameError { cause })
}

/// The start of a round is announced: the host learns the prize door, the
/// contestant only that a round began.
pub open spec fn announces_start(o: Outcome, prize: u32, random: bool) -> bool {
    &&& o.deliveries@ == seq![
        Delivery { to: Recipient::Host, response: GameResponse::Started { prize, random } },
        Delivery { to: Recipient::Contestant, response: GameResponse::ContestantStarted { random } },
    ]
    &&& o.binding == Binding::Keep
    &&& !o.remove_room
}

/// What a guest's request to enter `room` does.
pub open spec fn enter_step(
    user: Uuid,
    role: Role,
    room: RoomView,
    role2: Role,
    room2: RoomView,
    o: Outcome,
) -> bool {
    if room.state is Created {
        &&& role2 == Role::Contestant { room_id: room.id }
        &&& room2 == room.with_state(RoomStateView::Joined { contestant: user, ready: false })
        &&& o.deliveries@ == seq![
            Delivery { to: Recipient::Host, response: GameResponse::RoomEntered { contestant_id: user } },
            Delivery {
                to: Recipient::Requester,
                response: GameResponse::ContestantRoomEntered {
                    info: RoomInfo { id: room.id, settings: room.settings },
                },
            },
        ]
        &&& o.binding == Binding::Bind
        &&& !o.remove_room
    } else {
        refused(role, room, role2, room2, o, Error::InvalidOperation)
    }
}

/// What a host's request does to its room.
pub open spec fn host_step(
    user: Uuid,
    role: Role,
    request: GameRequest,
    room: RoomView,
    role2: Role,
    room2: RoomView,
    o: Outcome,
) -> bool {
    let doors = room.settings.doors;
    match request {
        GameRequest::ExitRoom { .. } => {
            &&& role2 == Role::Guest
            &&& room2 == room
            &&& o.deliveries@ == seq![
                Delivery { to: Recipient::Everyone, response: GameResponse::Exited { user_id: user } },
            ]
            &&& o.binding == Binding::Keep
            &&& o.remove_room
        },
        GameRequest::UpdateSettings { settings } => {
            if !settings.valid() || room.state is Started {
                refused(role, room, role2, room2, o, Error::InvalidOperation)
            } else if room.state is Joined && settings != room.settings {
                &&& role2 == role
                &&& room2 == room.with_settings(settings).with_state(
                    RoomStateView::Joined {
                        contestant: room.state->Joined_contestant,
                        ready: false,
                    },
                )
                &&& only_broadcast(o, GameResponse::SettingsUpdated { notify: true, settings })
            } else {
                &&& role2 == role
                &&& room2 == room.with_settings(settings)
                &&& only_reply(o, GameResponse::SettingsUpdated { notify: false, settings })
            }
        },
        GameRequest::Start { prize: Index::Specified(prize) } => {
            if prize >= doors {
                refused(role, room, role2, room2, o, Error::InvalidDoorIndex)
            } else if !room.can_start() {
                refused(role, room, role2, room2, o, Error::InvalidOperation)
            } else {
                role2 == role && room2 == room.begin_round(prize) && announces_start(o, prize, false)
            }
        },
        GameRequest::Start { prize: Index::Random } => {
            if !room.can_start() {
                refused(role, room, role2, room2, o, Error::InvalidOperation)
            } else {
                &&& role2 == role
                &&& o.deliveries@.len() == 2
                &&& o.deliveries@[0].response matches GameResponse::Started { prize, .. }
                &&& prize < doors
                &&& room2 == room.begin_round(prize)
                &&& announces_start(o, prize, true)
            }
        },
        GameRequest::Reveal { left: Index::Specified(left) } => {
            if left >= doors {
                refused(role, room, role2, room2, o, Error::InvalidDoorIndex)
            } else if !(room.at_reveal() && reveal_ok(room.chosen(), left, room.prize())) {
                refused(role, room, role2, room2, o, Error::InvalidOperation)
            } else {
                &&& role2 == role
                &&& room2 == room.with_stage(Stage::Decide { chosen: room.chosen(), left })
                &&& only_broadcast(o, GameResponse::Revealed { left, random: false })
            }
        },
        GameRequest::Reveal { left: Index::Random } => {
            if !room.at_reveal() {
                refused(role, room, role2, room2, o, Error::InvalidOperation)
            } else {
                &&& role2 == role
                &&& o.deliveries@.len() == 1
                &&& o.deliveries@[0].response matches GameResponse::Revealed { left, .. }
                &&& left < doors
                &&& reveal_ok(room.chosen(), left, room.prize())
                &&& room2 == room.with_stage(Stage::Decide { chosen: room.chosen(), left })
                &&& only_broadcast(o, GameResponse::Revealed { left, random: true })
            }
        },
        GameRequest::Complete { kick_contestant } => {
            if !room.can_complete() {
                refused(role, room, role2, room2, o, Error::InvalidOperation)
            } else {
                &&& role2 == role
                &&& room2 == room.after_complete(kick_contestant)
                &&& o.deliveries@.len() == 1
                &&& o.deliveries@[0].to == Recipient::Everyone
                &&& o.deliveries@[0].response matches GameResponse::Completed { result }
                &&& result@.settings == room.settings
                &&& tallies(result@, room.results())
                &&& o.binding == if kick_contestant {
                    Binding::Unbind
                } else {
                    Binding::Keep
                }
                &&& !o.remove_room
            }
        },
        _ => refused(role, room, role2, room2, o, Error::InvalidOperation),
    }
}

/// What a contestant's request does to its room, which still has a
/// contestant.
pub open spec fn contestant_step(
    user: Uuid,
    role: Role,
    request: GameRequest,
    room: RoomView,
    role2: Role,
    room2: RoomView,
    o: Outcome,
) -> bool {
    let doors = room.settings.doors;
    match request {
        GameRequest::ExitRoom { .. } => {
            &&& role2 == Role::Guest
            &&& room2 == room.with_state(RoomStateView::Created)
            &&& o.deliveries@ == seq![
                Delivery { to: Recipient::Everyone, response: GameResponse::Exited { user_id: user } },
            ]
            &&& o.binding == Binding::Unbind
            &&& !o.remove_room
        },
        GameRequest::Ready { ready } => {
            if !(room.state is Joined) {
                refused(role, room, role2, room2, o, Error::InvalidOperation)
            } else {
                &&& role2 == role
                &&& room2 == room.with_state(
                    RoomStateView::Joined { contestant: room.state->Joined_contestant, ready },
                )
                &&& only_broadcast(o, GameResponse::Ready { ready })
            }
        },
        GameRequest::Choose { chosen: Index::Specified(chosen) } => {
            if chosen >= doors {
                refused(role, room, role2, room2, o, Error::InvalidDoorIndex)
            } else if room.stage() != Some(Stage::Choose) {
                refused(role, room, role2, room2, o, Error::InvalidOperation)
            } else {
                &&& role2 == role
                &&& room2 == room.with_stage(Stage::Reveal { chosen })
                &&& only_broadcast(o, GameResponse::Chosen { chosen, random: false })
            }
        },
        GameRequest::Choose { chosen: Index::Random } => {
            if room.stage() != Some(Stage::Choose) {
                refused(role, room, role2, room2, o, Error::InvalidOperation)
            } else {
                &&& role2 == role
                &&& o.deliveries@.len() == 1
                &&& o.deliveries@[0].response matches GameResponse::Chosen { chosen, .. }
                &&& chosen < doors
                &&& room2 == room.with_stage(Stage::Reveal { chosen })
                &&& only_broadcast(o, GameResponse::Chosen { chosen, random: true })
            }
        },
        GameRequest::Decide { decision } => {
            if !room.at_decide() {
                refused(role, room, role2, room2, o, Error::InvalidOperation)
            } else {
                &&& role2 == role
                &&& room2 == room.end_round(decision)
                &&& only_broadcast(o, GameResponse::Decided { result: room.round_result(decision) })
            }
        },
        _ => refused(role, room, role2, room2, o, Error::InvalidOperation),
    }
}

/// What a request does inside the room of its connection. A contestant whose
/// room has no contestant any more was sent away: it becomes a guest and is
/// told so. A request that the role may not make is refused. Otherwise the
/// request runs the room's state machine, as the steps above say.
pub open spec fn in_room_step(
    user: Uuid,
    role: Role,
    request: GameRequest,
    room: RoomView,
    role2: Role,
    room2: RoomView,
    o: Outcome,
) -> bool {
    if role is Contestant && room.state is Created {
        role2 == Role::Guest && room2 == room && only_reply(
            o,
            GameResponse::Exited { user_id: user },
        )
    } else if !allowed(role, request) {
        refused(role, room, role2, room2, o, Error::InvalidOperation)
    } else {
        match role {
            Role::Guest => enter_step(user, role, room, role2, room2, o),
            Role::Host { .. } => host_step(user, role, request, room, role2, room2, o),
            Role::Contestant { .. } => contestant_step(user, role, request, room, role2, room2, o),
        }
    }
}

/// A game error reaches the requester alone, never the room, and comes with
/// no change to the room or to the requester's role.
pub proof fn lemma_game_errors_reach_requester_only(
    user: Uuid,
    role: Role,
    request: GameRequest,
    room: RoomView,
    role2: Role,
    room2: RoomView,
    o: Outcome,
    i: int,
)
    requires
        in_room_step(user, role, request, room, role2, room2, o),
        0 <= i < o.deliveries@.len(),
        o.deliveries@[i].response is GameError,
    ensures
        o.deliveries@.len() == 1,
        o.deliveries@[i].to == Recipient::Requester,
        role2 == role,
        room2 == room,
        o.binding == Binding::Keep,
        !o.remove_room,
{
}

/// A connection's role changes only when it enters or leaves a room, or when
/// a contestant finds that it was sent away.
pub proof fn lemma_role_changes_only_by_membership(
    user: Uuid,
    role: Role,
    request: GameRequest,
    room: RoomView,
    role2: Role,
    room2: RoomView,
    o: Outcome,
)
    requires
        in_room_step(user, role, request, room, role2, room2, o),
        role2 != role,
    ensures
        request is EnterRoom || request is ExitRoom || (role is Contestant && room.state is Created),
{
}

fn deliver(to: Recipient, response: GameResponse) -> (o: Outcome)
    ensures
        o.deliveries@ == seq![Delivery { to, response }],
        o.binding == Binding::Keep,
        !o.remove_room,
{
    let mut deliveries = Vec::new();
    deliveries.push(Delivery { to, response });
    Outcome { deliveries, binding: Binding::Keep, remove_room: false }
}

fn game_error(cause: Error) -> (o: Outcome)
    ensures
        only_reply(o, GameResponse::GameError { cause }),
{
    deliver(Recipient::Requester, GameResponse::GameError { cause })
}

fn announce_start(prize: u32, random: bool) -> (o: Outcome)
    ensures
        announces_start(o, prize, random),
{
    let mut deliveries = Vec::new();
    deliveries.push(
        Delivery { to: Recipient::Host, response: GameResponse::Started { prize, random } },
    );
    deliveries.push(
        Delivery { to: Recipient::Contestant, response: GameResponse::ContestantStarted { random } },
    );
    assert(deliveries@ =~= seq![
        Delivery { to: Recipient::Host, response: GameResponse::Started { prize, random } },
        Delivery { to: Recipient::Contestant, response: GameResponse::ContestantStarted { random } },
    ]);
    Outcome { deliveries, binding: Binding::Keep, remove_room: false }
}

fn enter_room(user: Uuid, role: &mut Role, room: &mut Room) -> (o: Outcome)
    requires
        old(room).wf(),
    ensures
        final(room).wf(),
        enter_step(user, *old(role), old(room)@, *final(role), final(room)@, o),
{
    match room.accept_contestant(user) {
        Ok(()) => {
            let info = RoomInfo::from_room(room);
            *role = Role::Contestant { room_id: info.id };
            let mut deliveries = Vec::new();
            deliveries.push(
                Delivery {
                    to: Recipient::Host,
                    response: GameResponse::RoomEntered { contestant_id: user },
                },
            );
            deliveries.push(
                Delivery {
                    to: Recipient::Requester,
                    response: GameResponse::ContestantRoomEntered { info },
                },
            );
            assert(deliveries@ =~= seq![
                Delivery {
                    to: Recipient::Host,
                    response: GameResponse::RoomEntered { contestant_id: user },
                },
                Delivery {
                    to: Recipient::Requester,
                    response: GameResponse::ContestantRoomEntered { info },
                },
            ]);
            Outcome { deliveries, binding: Binding::Bind, remove_room: false }
        },
        Err(cause) => game_error(cause),
    }
}

fn host_request(user: Uuid, role: &mut Role, request: GameRequest, room: &mut Room) -> (o: Outcome)
    requires
        old(room).wf(),
    ensures
        final(room).wf(),
        host_step(user, *old(role), request, old(room)@, *final(role), final(room)@, o),
{
    match request {
        GameRequest::ExitRoom { .. } => {
            *role = Role::Guest;
            let mut o = deliver(Recipient::Everyone, GameResponse::Exited { user_id: user });
            o.remove_room = true;
            o
        },
        GameRequest::UpdateSettings { settings } => match room.update_settings(settings) {
            Ok(notify) => {
                let response = GameResponse::SettingsUpdated { notify, settings };
                if notify {
                    deliver(Recipient::Everyone, response)
                } else {
                    deliver(Recipient::Requester, response)
                }
            },
            Err(cause) => game_error(cause),
        },
        GameRequest::Start { prize: Index::Specified(prize) } => match room.start(prize) {
            Ok(()) => announce_start(prize, false),
            Err(cause) => game_error(cause),
        },
        GameRequest::Start { prize: Index::Random } => match room.start_random() {
            Ok(prize) => announce_start(prize, true),
            Err(cause) => game_error(cause),
        },
        GameRequest::Reveal { left: Index::Specified(left) } => match room.reveal_door(left) {
            Ok(()) => deliver(Recipient::Everyone, GameResponse::Revealed { left, random: false }),
            Err(cause) => game_error(cause),
        },
        GameRequest::Reveal { left: Index::Random } => match room.reveal_random() {
            Ok(left) => deliver(Recipient::Everyone, GameResponse::Revealed { left, random: true }),
            Err(cause) => game_error(cause),
        },
        GameRequest::Complete { kick_contestant } => {
            let doors = room.settings().doors;
            match room.complete(kick_contestant) {
                Ok(results) => {
                    let result = GameResult::calculate(doors, results.as_slice());
                    let mut o = deliver(Recipient::Everyone, GameResponse::Completed { result });
                    if kick_contestant {
                        o.binding = Binding::Unbind;
                    }
                    o
                },
                Err(cause) => game_error(cause),
            }
        },
        _ => game_error(Error::InvalidOperation),
    }
}

fn contestant_request(
    user: Uuid,
    role: &mut Role,
    request: GameRequest,
    room: &mut Room,
) -> (o: Outcome)
    requires
        old(room).wf(),
        !(old(room)@.state is Created),
    ensures
        final(room).wf(),
        contestant_step(user, *old(role), request, old(room)@, *final(role), final(room)@, o),
{
    match request {
        GameRequest::ExitRoom { .. } => {
            let _ = room.kick_contestant();
            *role = Role::Guest;
            let mut o = deliver(Recipient::Everyone, GameResponse::Exited { user_id: user });
            o.binding = Binding::Unbind;
            o
        },
        GameRequest::Ready { ready } => match room.contestant_ready(ready) {
            Ok(()) => deliver(Recipient::Everyone, GameResponse::Ready { ready }),
            Err(cause) => game_error(cause),
        },
        GameRequest::Choose { chosen: Index::Specified(chosen) } => match room.choose_door(chosen) {
            Ok(()) => deliver(Recipient::Everyone, GameResponse::Chosen { chosen, random: false }),
            Err(cause) => game_error(cause),
        },
        GameRequest::Choose { chosen: Index::Random } => match room.choose_random() {
            Ok(chosen) => deliver(Recipient::Everyone, GameResponse::Chosen { chosen, random: true }),
            Err(cause) => game_error(cause),
        },
        GameRequest::Decide { decision } => match room.decide(decision) {
            Ok(result) => deliver(Recipient::Everyone, GameResponse::Decided { result }),
            Err(cause) => game_error(cause),
        },
        _ => game_error(Error::InvalidOperation),
    }
}

/// Runs `request` of the connection `user`, in the role `role`, against
/// `room`: the room the request addresses, as `route` named it. The room is
/// changed only through its state machine; a refused request leaves role and
/// room as they were and answers the requester alone.
pub fn handle_in_room(user: Uuid, role: &mut Role, request: GameRequest, room: &mut Room) -> (o:
    Outcome)
    requires
        old(room).wf(),
    ensures
        final(room).wf(),
        in_room_step(user, *old(role), request, old(room)@, *final(role), final(room)@, o),
{
    match *role {
        Role::Guest => match request {
            GameRequest::EnterRoom { .. } => enter_room(user, role, room),
            _ => game_error(Error::InvalidOperation),
        },
        Role::Host { .. } => host_request(user, role, request, room),
        Role::Contestant { .. } => {
            if matches!(room.state(), RoomState::Created) {
                *role = Role::Guest;
                deliver(Recipient::Requester, GameResponse::Exited { user_id: user })
            } else {
                contestant_request(user, role, request, room)
            }
        },
    }
}

/// The refusal of a request that the role may not make.
pub open spec fn rejection() -> Route {
    Route::Reply { response: GameResponse::GameError { cause: Error::InvalidOperation } }
}

/// Routes a request by the requester's role: any role may list the rooms;
/// only a guest may create or enter a room; every other request addresses
/// the requester's own room, and a guest, who has none, is refused.
pub fn route(role: &Role, request: &GameRequest) -> (r: Route)
    ensures
        *request matches GameRequest::ListRooms { page, size } ==> r == (Route::ListRooms {
            page,
            size,
        }),
        *request matches GameRequest::CreateRoom { settings } ==> r == if *role is Guest {
            Route::CreateRoom { settings }
        } else {
            rejection()
        },
        *request matches GameRequest::EnterRoom { id } ==> r == if *role is Guest {
            Route::Room { id }
        } else {
            rejection()
        },
        !(*request is ListRooms || *request is CreateRoom || *request is EnterRoom) ==> r == match
            role_room(*role) {
            Some(id) => Route::Room { id },
            None => rejection(),
        },
{
    let refuse = Route::Reply { response: GameResponse::GameError { cause: Error::InvalidOperation } };
    match *request {
        GameRequest::ListRooms { page, size } => Route::ListRooms { page, size },
        GameRequest::CreateRoom { settings } => match role {
            Role::Guest => Route::CreateRoom { settings },
            _ => refuse,
        },
        GameRequest::EnterRoom { id } => match role {
            Role::Guest => Route::Room { id },
            _ => refuse,
        },
        _ => match *role {
            Role::Host { room_id } => Route::Room { id: room_id },
            Role::Contestant { room_id } => Route::Room { id: room_id },
            Role::Guest => refuse,
        },
    }
}

/// The rooms that page `page` of size `size` shows: the listing skips the
/// first `page * size` rooms.
pub open spec fn page_of(rooms: Seq<RoomInfo>, page: u32, size: u32) -> Seq<RoomInfo> {
    let skip = page * size;
    if skip < rooms.len() {
        rooms.subrange(skip, rooms.len() as int)
    } else {
        Seq::empty()
    }
}

/// The answer to a room listing over `rooms`, a snapshot of the registry.
pub fn list_rooms(page: u32, size: u32, rooms: &Vec<RoomInfo>) -> (r: GameResponse)
    requires
        rooms@.len() <= u32::MAX,
    ensures
        r matches GameResponse::RoomList { rooms: shown, page: p, size: z, total } && shown@
            == page_of(rooms@, page, size) && p == page && z == size && total == rooms@.len(),
{
    assert(page * size <= u32::MAX * u32::MAX) by (nonlinear_arith)
        requires
            page <= u32::MAX,
            size <= u32::MAX,
    ;
    let skip: u64 = page as u64 * size as u64;
    let mut shown: Vec<RoomInfo> = Vec::new();
    let mut i: usize = 0;
    while i < rooms.len()
        invariant
            i <= rooms@.len(),
            skip == page * size,
            shown@ == if skip < i {
                rooms@.subrange(skip as int, i as int)
            } else {
                Seq::<RoomInfo>::empty()
            },
        decreases rooms@.len() - i,
    {
        if i as u64 >= skip {
            shown.push(rooms[i]);
        }
        proof {
            if skip < i + 1 {
                assert(shown@ =~= rooms@.subrange(skip as int, i + 1));
            }
        }
        i = i + 1;
    }
    GameResponse::RoomList { rooms: shown, page, size, total: rooms.len() as u32 }
}

/// Creates a room for a guest with `settings`, or with `default_settings`
/// where none are given, and makes the guest its host. The room is handed
/// back for the registry. A requester who is not a guest, or unplayable
/// settings, are refused with `InvalidOperation`.
pub fn create_room(
    user: Uuid,
    role: &mut Role,
    settings: Option<Settings>,
    default_settings: Settings,
) -> (r: (Option<Room>, GameResponse))
    ensures
        ({
            let chosen = match settings {
                Some(s) => s,
                None => default_settings,
            };
            if *old(role) is Guest && chosen.valid() {
                &&& r.0 matches Some(room)
                &&& room.wf()
                &&& room@.host == user
                &&& room@.settings == chosen
                &&& room@.state is Created
                &&& *final(role) == Role::Host { room_id: room@.id }
                &&& r.1 == GameResponse::RoomCreated {
                    info: RoomInfo { id: room@.id, settings: chosen },
                }
            } else {
                &&& r.0 is None
                &&& *final(role) == *old(role)
                &&& r.1 == GameResponse::GameError { cause: Error::InvalidOperation }
            }
        }),
{
    let chosen = match settings {
        Some(s) => s,
        None => default_settings,
    };
    let is_guest = matches!(role, Role::Guest);
    if !is_guest || !chosen.is_valid() {
        return (None, GameResponse::GameError { cause: Error::InvalidOperation });
    }
    let room = Room::create(user, chosen);
    let info = RoomInfo::from_room(&room);
    *role = Role::Host { room_id: info.id };
    (Some(room), GameResponse::RoomCreated { info })
}

/// The room `id` that a request addressed is gone: the requester becomes a
/// guest and is told so.
pub fn room_not_found(role: &mut Role, id: Uuid) -> (r: GameResponse)
    ensures
        *final(role) == Role::Guest,
        r == (GameResponse::ServerError { cause: ServerError::RoomNotFound { id } }),
{
    *role = Role::Guest;
    GameResponse::ServerError { cause: ServerError::RoomNotFound { id } }
}

} // verus!
