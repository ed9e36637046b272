use crate::error::{Error, Result};
use crate::outside::draw_below;
use uuid::Uuid;
use vstd::prelude::*;

verus! {

/// Game settings: the number of doors and the number of rounds.
#[derive(Debug, Clone, Copy, PartialEq, Eq, Structural)]
pub struct Settings {
    pub doors: u32,
    pub rounds: u32,
}

impl Settings {
    /// Settings a room can be played with: at least two doors and one round.
    pub open spec fn valid(self) -> bool {
        self.doors >= 2 && self.rounds >= 1
    }

    pub fn new(doors: u32, rounds: u32) -> (r: Self)
        ensures
            r.doors == doors,
            r.rounds == rounds,
    {
        Settings { doors, rounds }
    }

    /// Executable check of `valid`.
    pub fn is_valid(&self) -> (r: bool)
        ensures
            r == self.valid(),
    {
        self.doors >= 2 && self.rounds >= 1
    }
}

/// The contestant's final decision.
#[derive(Debug, Clone, Copy, PartialEq, Eq, Structural)]
pub enum Decision {
    Switch,
    Stick,
}

impl Default for Decision {
    fn default() -> (r: Self)
        ensures
            r == Decision::Switch,
    {
        Decision::Switch
    }
}

/// Whether the decision wins: sticking wins when the first choice hides the
/// prize, switching wins when the door left closed by the host does.
pub open spec fn wins(chosen: u32, left: u32, prize: u32, decision: Decision) -> bool {
    match decision {
        Decision::Stick => chosen == prize,
        Decision::Switch => left == prize,
    }
}

/// The door left closed by the host is admissible: it is not the chosen door,
/// and when the chosen door misses the prize it must be the prize door, so
/// that the host never opens the prize.
pub open spec fn reveal_ok(chosen: u32, left: u32, prize: u32) -> bool {
    left != chosen && (chosen != prize ==> left == prize)
}

/// The outcome of one round.
#[derive(Debug, Clone, Copy, PartialEq, Eq, Structural)]
pub struct RoundResult {
    pub prize: u32,
    pub chosen: u32,
    pub left: u32,
    pub decision: Decision,
    pub win: bool,
}

impl RoundResult {
    /// A result that a round played with `doors` doors can produce.
    pub open spec fn wf(self, doors: u32) -> bool {
        &&& self.prize < doors
        &&& self.chosen < doors
        &&& self.left < doors
        &&& reveal_ok(self.chosen, self.left, self.prize)
        &&& self.win == wins(self.chosen, self.left, self.prize, self.decision)
    }

    pub fn prize(&self) -> (r: u32)
        ensures
            r == self.prize,
    {
        self.prize
    }

    pub fn chosen(&self) -> (r: u32)
        ensures
            r == self.chosen,
    {
        self.chosen
    }

    pub fn left(&self) -> (r: u32)
        ensures
            r == self.left,
    {
        self.left
    }

    pub fn decision(&self) -> (r: Decision)
        ensures
            r == self.decision,
    {
        self.decision
    }

    pub fn win(&self) -> (r: bool)
        ensures
            r == self.win,
    {
        self.win
    }
}

/// The stages of one round, strictly in this order.
#[derive(Debug, Clone, Copy, PartialEq, Eq, Structural)]
pub enum Stage {
    /// The contestant chooses a door.
    Choose,
    /// The host reveals, leaving one other door closed.
    Reveal { chosen: u32 },
    /// The contestant decides to stick or switch.
    Decide { chosen: u32, left: u32 },
    /// The round is over.
    End { result: RoundResult },
}

impl Default for Stage {
    fn default() -> (r: Self)
        ensures
            r == Stage::Choose,
    {
        Stage::Choose
    }
}

impl Stage {
    /// The stage is consistent with the prize door and the number of doors.
    pub open spec fn wf(self, prize: u32, doors: u32) -> bool {
        match self {
            Stage::Choose => true,
            Stage::Reveal { chosen } => chosen < doors,
            Stage::Decide { chosen, left } => chosen < doors && left < doors && reveal_ok(
                chosen,
                left,
                prize,
            ),
            Stage::End { result } => result.wf(doors) && result.prize == prize,
        }
    }

    pub fn is_end(&self) -> (r: bool)
        ensures
            r == (*self is End),
    {
        matches!(self, Stage::End { .. })
    }
}

/// The state of a room.
#[derive(Debug)]
pub enum RoomState {
    /// No contestant yet.
    Created,
    /// A contestant is in the room; `ready` gates the start of the game.
    Joined { contestant: Uuid, ready: bool },
    /// The game is running.
    Started {
        contestant: Uuid,
        current_round: u32,
        prize: u32,
        results: Vec<RoundResult>,
        stage: Stage,
    },
}

impl Default for RoomState {
    fn default() -> (r: Self)
        ensures
            r@ == RoomStateView::Created,
    {
        RoomState::Created
    }
}

/// The mathematical value of a `RoomState`.
pub enum RoomStateView {
    Created,
    Joined { contestant: Uuid, ready: bool },
    Started {
        contestant: Uuid,
        current_round: u32,
        prize: u32,
        results: Seq<RoundResult>,
        stage: Stage,
    },
}

impl View for RoomState {
    type V = RoomStateView;

    open spec fn view(&self) -> RoomStateView {
        match self {
            RoomState::Created => RoomStateView::Created,
            RoomState::Joined { contestant, ready } => RoomStateView::Joined {
                contestant: *contestant,
                ready: *ready,
            },
            RoomState::Started { contestant, current_round, prize, results, stage } =>
                RoomStateView::Started {
                contestant: *contestant,
                current_round: *current_round,
                prize: *prize,
                results: results@,
                stage: *stage,
            },
        }
    }
}

impl RoomStateView {
    /// The invariants of a running game under `settings`: the round counter
    /// stays below the number of rounds, each finished round has exactly one
    /// result, recorded in play order, and every door index is in range.
    pub open spec fn wf(self, settings: Settings) -> bool {
        match self {
            RoomStateView::Started { current_round, prize, results, stage, .. } => {
                &&& current_round < settings.rounds
                &&& prize < settings.doors
                &&& results.len() == current_round + if stage is End {
                    1int
                } else {
                    0int
                }
                &&& forall|i: int| 0 <= i < results.len() ==> #[trigger] results[i].wf(settings.doors)
                &&& stage.wf(prize, settings.doors)
                &&& (stage matches Stage::End { result } ==> results.last() == result)
            },
            _ => true,
        }
    }
}

/// The mathematical value of a `Room`.
pub struct RoomView {
    pub id: Uuid,
    pub host: Uuid,
    pub settings: Settings,
    pub state: RoomStateView,
}

impl RoomView {
    pub open spec fn wf(self) -> bool {
        self.settings.valid() && self.state.wf(self.settings)
    }

    pub open spec fn with_state(self, state: RoomStateView) -> RoomView {
        RoomView { state, ..self }
    }

    pub open spec fn with_settings(self, settings: Settings) -> RoomView {
        RoomView { settings, ..self }
    }

    /// The stage of the current round, if the game is running.
    pub open spec fn stage(self) -> Option<Stage> {
        match self.state {
            RoomStateView::Started { stage, .. } => Some(stage),
            _ => None,
        }
    }

    /// The prize door of the current round (meaningful while the game runs).
    pub open spec fn prize(self) -> u32 {
        match self.state {
            RoomStateView::Started { prize, .. } => prize,
            _ => 0,
        }
    }

    /// The same room with the current round moved to `stage`.
    pub open spec fn with_stage(self, stage: Stage) -> RoomView {
        match self.state {
            RoomStateView::Started { contestant, current_round, prize, results, .. } =>
                self.with_state(
                RoomStateView::Started { contestant, current_round, prize, results, stage },
            ),
            _ => self,
        }
    }

    /// A round may begin: the contestant is ready before the first round, or
    /// the previous round has ended and it was not the last one.
    pub open spec fn can_start(self) -> bool {
        match self.state {
            RoomStateView::Created => false,
            RoomStateView::Joined { ready, .. } => ready,
            RoomStateView::Started { current_round, stage, .. } => stage is End && current_round
                < self.settings.rounds - 1,
        }
    }

    /// The room after a round begins with the prize behind door `prize`.
    pub open spec fn begin_round(self, prize: u32) -> RoomView {
        match self.state {
            RoomStateView::Created => self,
            RoomStateView::Joined { contestant, .. } => self.with_state(
                RoomStateView::Started {
                    contestant,
                    current_round: 0,
                    prize,
                    results: Seq::empty(),
                    stage: Stage::Choose,
                },
            ),
            RoomStateView::Started { contestant, current_round, results, .. } => self.with_state(
                RoomStateView::Started {
                    contestant,
                    current_round: (current_round + 1) as u32,
                    prize,
                    results,
                    stage: Stage::Choose,
                },
            ),
        }
    }

    /// The result of the current round when the contestant decides `decision`.
    pub open spec fn round_result(self, decision: Decision) -> RoundResult {
        match self.stage() {
            Some(Stage::Decide { chosen, left }) => RoundResult {
                prize: self.prize(),
                chosen,
                left,
                decision,
                win: wins(chosen, left, self.prize(), decision),
            },
            _ => RoundResult { prize: 0, chosen: 0, left: 0, decision, win: false },
        }
    }

    /// The room after the contestant decides: the result is recorded and the
    /// round ends.
    pub open spec fn end_round(self, decision: Decision) -> RoomView {
        match self.state {
            RoomStateView::Started { contestant, current_round, prize, results, .. } => {
                let result = self.round_result(decision);
                self.with_state(
                    RoomStateView::Started {
                        contestant,
                        current_round,
                        prize,
                        results: results.push(result),
                        stage: Stage::End { result },
                    },
                )
            },
            _ => self,
        }
    }

    /// The last round has ended.
    pub open spec fn can_complete(self) -> bool {
        match self.state {
            RoomStateView::Started { current_round, stage, .. } => stage is End && current_round
                >= self.settings.rounds - 1,
            _ => false,
        }
    }

    /// The results recorded so far.
    pub open spec fn results(self) -> Seq<RoundResult> {
        match self.state {
            RoomStateView::Started { results, .. } => results,
            _ => Seq::empty(),
        }
    }

    /// The room after the game completes: the contestant stays, not ready,
    /// or is sent away.
    pub open spec fn after_complete(self, kick_contestant: bool) -> RoomView {
        match self.state {
            RoomStateView::Started { contestant, .. } => if kick_contestant {
                self.with_state(RoomStateView::Created)
            } else {
                self.with_state(RoomStateView::Joined { contestant, ready: false })
            },
            _ => self,
        }
    }

    /// The round is at its reveal stage.
    pub open spec fn at_reveal(self) -> bool {
        self.stage() matches Some(Stage::Reveal { .. })
    }

    /// The round is at its decision stage.
    pub open spec fn at_decide(self) -> bool {
        self.stage() matches Some(Stage::Decide { .. })
    }

    /// The door chosen in the current round (meaningful from the reveal on).
    pub open spec fn chosen(self) -> u32 {
        match self.stage() {
            Some(Stage::Reveal { chosen }) => chosen,
            Some(Stage::Decide { chosen, .. }) => chosen,
            Some(Stage::End { result }) => result.chosen,
            _ => 0,
        }
    }

    /// The door left closed by the host (meaningful from the decision on).
    pub open spec fn left(self) -> u32 {
        match self.stage() {
            Some(Stage::Decide { left, .. }) => left,
            Some(Stage::End { result }) => result.left,
            _ => 0,
        }
    }
}

/// At the decision stage of a round exactly one decision wins: sticking wins
/// if and only if the chosen door hides the prize, switching if and only if
/// the door left closed does.
pub proof fn lemma_exactly_one_decision_wins(room: RoomView)
    requires
        room.wf(),
        room.at_decide(),
    ensures
        room.round_result(Decision::Stick).win == (room.chosen() == room.prize()),
        room.round_result(Decision::Switch).win == (room.left() == room.prize()),
        room.round_result(Decision::Stick).win != room.round_result(Decision::Switch).win,
{
}

/// A game room: its identity, its host, its settings and its state.
#[derive(Debug)]
pub struct Room {
    id: Uuid,
    host: Uuid,
    settings: Settings,
    state: RoomState,
}

impl View for Room {
    type V = RoomView;

    closed spec fn view(&self) -> RoomView {
        RoomView { id: self.id, host: self.host, settings: self.settings, state: self.state@ }
    }
}

impl Room {
    pub open spec fn wf(&self) -> bool {
        self@.wf()
    }

    /// Creates an empty room for `host`, under a fresh identifier.
    pub fn create(host: Uuid, settings: Settings) -> (r: Self)
        requires
            settings.valid(),
        ensures
            r.wf(),
            r@.host == host,
            r@.settings == settings,
            r@.state == RoomStateView::Created,
    {
        let r = Room { id: Uuid::new_v4(), host, settings, state: RoomState::default() };
        r
    }

    pub fn id(&self) -> (r: &Uuid)
        ensures
            *r == self@.id,
    {
        &self.id
    }

    pub fn host(&self) -> (r: &Uuid)
        ensures
            *r == self@.host,
    {
        &self.host
    }

    pub fn settings(&self) -> (r: Settings)
        ensures
            r == self@.settings,
    {
        self.settings
    }

    pub fn state(&self) -> (r: &RoomState)
        ensures
            r@ == self@.state,
    {
        &self.state
    }

    fn can_start_now(&self) -> (r: bool)
        requires
            self.wf(),
        ensures
            r == self@.can_start(),
    {
        match &self.state {
            RoomState::Joined { ready, .. } => *ready,
            RoomState::Started { current_round, stage, .. } => stage.is_end() && *current_round
                < self.settings.rounds - 1,
            RoomState::Created => false,
        }
    }

    fn begin_round(&mut self, prize: u32)
        requires
            old(self).wf(),
            old(self)@.can_start(),
            prize < old(self)@.settings.doors,
        ensures
            final(self).wf(),
            final(self)@ == old(self)@.begin_round(prize),
    {
        match &mut self.state {
            RoomState::Joined { contestant, .. } => {
                let contestant = *contestant;
                self.state = RoomState::Started {
                    contestant,
                    current_round: 0,
                    prize,
                    results: Vec::new(),
                    stage: Stage::Choose,
                };
            },
            RoomState::Started { current_round, prize: p, stage, .. } => {
                *current_round = *current_round + 1;
                *stage = Stage::Choose;
                *p = prize;
            },
            RoomState::Created => {},
        }
    }

    /// Starts a round with the prize behind a door drawn at random.
    ///
    /// Fails with `InvalidOperation` unless a round may begin; then the room
    /// is left as it was.
    pub fn start_random(&mut self) -> (r: Result<u32>)
        requires
            old(self).wf(),
        ensures
            final(self).wf(),
            r is Ok <==> old(self)@.can_start(),
            r matches Ok(prize) ==> prize < old(self)@.settings.doors && final(self)@ == old(
                self,
            )@.begin_round(prize),
            r is Err ==> r == Err::<u32, Error>(Error::InvalidOperation) && final(self)@ == old(
                self,
            )@,
    {
        if !self.can_start_now() {
            return Err(Error::InvalidOperation);
        }
        let prize = draw_below(self.settings.doors);
        self.begin_round(prize);
        Ok(prize)
    }

    /// Starts a round with the prize behind door `prize`.
    ///
    /// Fails with `InvalidDoorIndex` when the door does not exist, and
    /// otherwise with `InvalidOperation` unless a round may begin; on failure
    /// the room is left as it was.
    pub fn start(&mut self, prize: u32) -> (r: Result<()>)
        requires
            old(self).wf(),
        ensures
            final(self).wf(),
            prize >= old(self)@.settings.doors ==> r == Err::<(), Error>(Error::InvalidDoorIndex),
            prize < old(self)@.settings.doors && !old(self)@.can_start() ==> r == Err::<
                (),
                Error,
            >(Error::InvalidOperation),
            r is Ok <==> prize < old(self)@.settings.doors && old(self)@.can_start(),
            r is Ok ==> final(self)@ == old(self)@.begin_round(prize),
            r is Err ==> final(self)@ == old(self)@,
    {
        if prize >= self.settings.doors {
            return Err(Error::InvalidDoorIndex);
        }
        if !self.can_start_now() {
            return Err(Error::InvalidOperation);
        }
        self.begin_round(prize);
        Ok(())
    }

    /// The contestant chooses a door drawn at random.
    ///
    /// Fails with `InvalidOperation` unless the round is at its choosing
    /// stage; then the room is left as it was.
    pub fn choose_random(&mut self) -> (r: Result<u32>)
        requires
            old(self).wf(),
        ensures
            final(self).wf(),
            r is Ok <==> old(self)@.stage() == Some(Stage::Choose),
            r matches Ok(chosen) ==> chosen < old(self)@.settings.doors && final(self)@ == old(
                self,
            )@.with_stage(Stage::Reveal { chosen }),
            r is Err ==> r == Err::<u32, Error>(Error::InvalidOperation) && final(self)@ == old(
                self,
            )@,
    {
        let doors = self.settings.doors;
        match &mut self.state {
            RoomState::Started { stage, .. } => {
                if let Stage::Choose = stage {
                    let chosen = draw_below(doors);
                    *stage = Stage::Reveal { chosen };
                    Ok(chosen)
                } else {
                    Err(Error::InvalidOperation)
                }
            },
            _ => Err(Error::InvalidOperation),
        }
    }

    /// The contestant chooses door `chosen`.
    ///
    /// Fails with `InvalidDoorIndex` when the door does not exist, and
    /// otherwise with `InvalidOperation` unless the round is at its choosing
    /// stage; on failure the room is left as it was.
    pub fn choose_door(&mut self, chosen: u32) -> (r: Result<()>)
        requires
            old(self).wf(),
        ensures
            final(self).wf(),
            chosen >= old(self)@.settings.doors ==> r == Err::<(), Error>(Error::InvalidDoorIndex),
            chosen < old(self)@.settings.doors && old(self)@.stage() != Some(Stage::Choose) ==> r
                == Err::<(), Error>(Error::InvalidOperation),
            r is Ok <==> chosen < old(self)@.settings.doors && old(self)@.stage() == Some(
                Stage::Choose,
            ),
            r is Ok ==> final(self)@ == old(self)@.with_stage(Stage::Reveal { chosen }),
            r is Err ==> final(self)@ == old(self)@,
    {
        if chosen >= self.settings.doors {
            return Err(Error::InvalidDoorIndex);
        }
        match &mut self.state {
            RoomState::Started { stage, .. } => {
                if let Stage::Choose = stage {
                    *stage = Stage::Reveal { chosen };
                    Ok(())
                } else {
                    Err(Error::InvalidOperation)
                }
            },
            _ => Err(Error::InvalidOperation),
        }
    }

    /// The host reveals: when the chosen door hides the prize, the door left
    /// closed is drawn at random among the others; otherwise it is the prize
    /// door.
    ///
    /// Fails with `InvalidOperation` unless the round is at its reveal stage;
    /// then the room is left as it was.
    pub fn reveal_random(&mut self) -> (r: Result<u32>)
        requires
            old(self).wf(),
        ensures
            final(self).wf(),
            r is Ok <==> old(self)@.at_reveal(),
            r matches Ok(left) ==> {
                let chosen = old(self)@.chosen();
                let prize = old(self)@.prize();
                &&& left < old(self)@.settings.doors
                &&& left != chosen
                &&& chosen == prize ==> left != prize
                &&& chosen != prize ==> left == prize
                &&& final(self)@ == old(self)@.with_stage(Stage::Decide { chosen, left })
            },
            r is Err ==> r == Err::<u32, Error>(Error::InvalidOperation) && final(self)@ == old(
                self,
            )@,
    {
        let doors = self.settings.doors;
        match &mut self.state {
            RoomState::Started { stage, prize, .. } => {
                if let Stage::Reveal { chosen } = *stage {
                    let left = if chosen == *prize {
                        random_door(doors, chosen)
                    } else {
                        *prize
                    };
                    *stage = Stage::Decide { chosen, left };
                    Ok(left)
                } else {
                    Err(Error::InvalidOperation)
                }
            },
            _ => Err(Error::InvalidOperation),
        }
    }

    /// The host reveals, leaving door `left` closed beside the chosen one.
    ///
    /// Fails with `InvalidDoorIndex` when the door does not exist; otherwise
    /// with `InvalidOperation` unless the round is at its reveal stage and the
    /// door is admissible (not the chosen door, and the prize door when the
    /// chosen one misses the prize). On failure the room is left as it was.
    pub fn reveal_door(&mut self, left: u32) -> (r: Result<()>)
        requires
            old(self).wf(),
        ensures
            final(self).wf(),
            left >= old(self)@.settings.doors ==> r == Err::<(), Error>(Error::InvalidDoorIndex),
            left < old(self)@.settings.doors && !(old(self)@.at_reveal() && reveal_ok(
                old(self)@.chosen(),
                left,
                old(self)@.prize(),
            )) ==> r == Err::<(), Error>(Error::InvalidOperation),
            r is Ok <==> left < old(self)@.settings.doors && old(self)@.at_reveal() && reveal_ok(
                old(self)@.chosen(),
                left,
                old(self)@.prize(),
            ),
            r is Ok ==> final(self)@ == old(self)@.with_stage(
                Stage::Decide { chosen: old(self)@.chosen(), left },
            ),
            r is Err ==> final(self)@ == old(self)@,
    {
        if left >= self.settings.doors {
            return Err(Error::InvalidDoorIndex);
        }
        match &mut self.state {
            RoomState::Started { stage, prize, .. } => {
                if let Stage::Reveal { chosen } = *stage {
                    if left == chosen || (chosen != *prize && left != *prize) {
                        Err(Error::InvalidOperation)
                    } else {
                        *stage = Stage::Decide { chosen, left };
                        Ok(())
                    }
                } else {
                    Err(Error::InvalidOperation)
                }
            },
            _ => Err(Error::InvalidOperation),
        }
    }

    /// The contestant decides; the round's result is recorded and returned.
    ///
    /// Fails with `InvalidOperation` unless the round is at its decision
    /// stage; then the room is left as it was.
    pub fn decide(&mut self, decision: Decision) -> (r: Result<RoundResult>)
        requires
            old(self).wf(),
        ensures
            final(self).wf(),
            r is Ok <==> old(self)@.at_decide(),
            r matches Ok(result) ==> {
                &&& result == old(self)@.round_result(decision)
                &&& result.win == wins(result.chosen, result.left, result.prize, decision)
                &&& final(self)@ == old(self)@.end_round(decision)
            },
            r is Err ==> r == Err::<RoundResult, Error>(Error::InvalidOperation) && final(self)@
                == old(self)@,
    {
        match &mut self.state {
            RoomState::Started { prize, results, stage, .. } => {
                if let Stage::Decide { chosen, left } = *stage {
                    let win = match decision {
                        Decision::Stick => chosen == *prize,
                        Decision::Switch => left == *prize,
                    };
                    let result = RoundResult { prize: *prize, chosen, left, decision, win };
                    results.push(result);
                    *stage = Stage::End { result };
                    Ok(result)
                } else {
                    Err(Error::InvalidOperation)
                }
            },
            _ => Err(Error::InvalidOperation),
        }
    }

    fn can_complete_now(&self) -> (r: bool)
        requires
            self.wf(),
        ensures
            r == self@.can_complete(),
    {
        match &self.state {
            RoomState::Started { current_round, stage, .. } => stage.is_end() && *current_round
                >= self.settings.rounds - 1,
            _ => false,
        }
    }

    /// Completes the game after its last round and hands back the results of
    /// all rounds in play order. The contestant stays, not ready, or is sent
    /// away when `kick_contestant` is set.
    ///
    /// Fails with `InvalidOperation` unless the last round has ended; then
    /// the room is left as it was.
    pub fn complete(&mut self, kick_contestant: bool) -> (r: Result<Vec<RoundResult>>)
        requires
            old(self).wf(),
        ensures
            final(self).wf(),
            r is Ok <==> old(self)@.can_complete(),
            r matches Ok(results) ==> {
                &&& results@ == old(self)@.results()
                &&& results@.len() == old(self)@.settings.rounds
                &&& forall|i: int|
                    0 <= i < results@.len() ==> #[trigger] results@[i].wf(
                        old(self)@.settings.doors,
                    )
                &&& final(self)@ == old(self)@.after_complete(kick_contestant)
            },
            r is Err ==> r == Err::<Vec<RoundResult>, Error>(Error::InvalidOperation) && final(self)@ == old(self)@,
    {
        if !self.can_complete_now() {
            return Err(Error::InvalidOperation);
        }
        let mut state = match &self.state {
            RoomState::Started { contestant, .. } => if kick_contestant {
                RoomState::Created
            } else {
                RoomState::Joined { contestant: *contestant, ready: false }
            },
            _ => RoomState::Created,
        };
        std::mem::swap(&mut self.state, &mut state);
        match state {
            RoomState::Started { results, .. } => Ok(results),
            _ => Err(Error::Impossible),
        }
    }

    /// Takes `contestant` into a room that has none.
    ///
    /// Fails with `InvalidOperation` when the room already has a contestant;
    /// then the room is left as it was.
    pub fn accept_contestant(&mut self, contestant: Uuid) -> (r: Result<()>)
        requires
            old(self).wf(),
        ensures
            final(self).wf(),
            r is Ok <==> old(self)@.state is Created,
            r is Ok ==> final(self)@ == old(self)@.with_state(
                RoomStateView::Joined { contestant, ready: false },
            ),
            r is Err ==> r == Err::<(), Error>(Error::InvalidOperation) && final(self)@ == old(
                self,
            )@,
    {
        if let RoomState::Created = self.state {
            self.state = RoomState::Joined { contestant, ready: false };
            Ok(())
        } else {
            Err(Error::InvalidOperation)
        }
    }

    /// Sends the contestant away, ending any game in progress.
    ///
    /// Fails with `InvalidOperation` when the room has no contestant.
    pub fn kick_contestant(&mut self) -> (r: Result<()>)
        requires
            old(self).wf(),
        ensures
            final(self).wf(),
            r is Ok <==> !(old(self)@.state is Created),
            r is Ok ==> final(self)@ == old(self)@.with_state(RoomStateView::Created),
            r is Err ==> r == Err::<(), Error>(Error::InvalidOperation) && final(self)@ == old(
                self,
            )@,
    {
        if let RoomState::Created = self.state {
            Err(Error::InvalidOperation)
        } else {
            self.state = RoomState::Created;
            Ok(())
        }
    }

    /// Sets whether the contestant is ready to start.
    ///
    /// Fails with `InvalidOperation` unless a contestant has joined and the
    /// game has not started; then the room is left as it was.
    pub fn contestant_ready(&mut self, ready: bool) -> (r: Result<()>)
        requires
            old(self).wf(),
        ensures
            final(self).wf(),
            r is Ok <==> old(self)@.state is Joined,
            r is Ok ==> final(self)@ == old(self)@.with_state(
                RoomStateView::Joined { contestant: old(self)@.state->Joined_contestant, ready },
            ),
            r is Err ==> r == Err::<(), Error>(Error::InvalidOperation) && final(self)@ == old(
                self,
            )@,
    {
        match &mut self.state {
            RoomState::Joined { ready: r, .. } => {
                *r = ready;
                Ok(())
            },
            _ => Err(Error::InvalidOperation),
        }
    }

    /// Replaces the settings before a game starts. Returns whether the
    /// contestant must confirm again: when a contestant has joined and the
    /// settings change, the contestant is no longer ready.
    ///
    /// Fails with `InvalidOperation` once the game has started, or when the
    /// new settings are not playable; then the room is left as it was.
    pub fn update_settings(&mut self, settings: Settings) -> (r: Result<bool>)
        requires
            old(self).wf(),
        ensures
            final(self).wf(),
            r is Ok <==> settings.valid() && !(old(self)@.state is Started),
            r is Err ==> r == Err::<bool, Error>(Error::InvalidOperation) && final(self)@ == old(
                self,
            )@,
            r is Ok && old(self)@.state is Created ==> r == Ok::<bool, Error>(false) && final(self)@ == (RoomView { settings, ..old(self)@ }),
            r is Ok && old(self)@.state is Joined && settings == old(self)@.settings ==> r == Ok::<
                bool,
                Error,
            >(false) && final(self)@ == old(self)@,
            r is Ok && old(self)@.state is Joined && settings != old(self)@.settings ==> r == Ok::<
                bool,
                Error,
            >(true) && final(self)@ == (RoomView {
                settings,
                state: RoomStateView::Joined {
                    contestant: old(self)@.state->Joined_contestant,
                    ready: false,
                },
                ..old(self)@
            }),
    {
        if !settings.is_valid() {
            return Err(Error::InvalidOperation);
        }
        match &mut self.state {
            RoomState::Created => {
                self.settings = settings;
                Ok(false)
            },
            RoomState::Joined { ready, .. } => {
                let notify_contestant = self.settings != settings;
                if notify_contestant {
                    self.settings = settings;
                    *ready = false;
                }
                Ok(notify_contestant)
            },
            RoomState::Started { .. } => Err(Error::InvalidOperation),
        }
    }
}

/// Maps a draw from `[0, doors - 1)` onto the doors other than `exclusive`:
/// draws at or above `exclusive` move up by one.
pub open spec fn skip_door(draw: u32, exclusive: u32) -> int {
    if draw >= exclusive {
        draw + 1
    } else {
        draw as int
    }
}

/// The door that the draw `draw` stands for when door `exclusive` is left out.
pub fn door_from_draw(draw: u32, exclusive: u32) -> (r: u32)
    requires
        draw < u32::MAX,
    ensures
        r == skip_door(draw, exclusive),
{
    if draw >= exclusive {
        draw + 1
    } else {
        draw
    }
}

/// The draw that `skip_door` maps onto door `door`.
pub open spec fn unskip_door(door: u32, exclusive: u32) -> u32 {
    if door > exclusive {
        (door - 1) as u32
    } else {
        door
    }
}

/// `skip_door` is a bijection from `[0, doors - 1)` onto the doors other
/// than `exclusive`, with inverse `unskip_door`; so a uniform draw gives a
/// uniform door among them.
pub proof fn lemma_skip_door_bijective(doors: u32, exclusive: u32)
    requires
        doors >= 2,
        exclusive < doors,
    ensures
        forall|d: u32|
            d < doors - 1 ==> 0 <= #[trigger] skip_door(d, exclusive) < doors && skip_door(
                d,
                exclusive,
            ) != exclusive && unskip_door(skip_door(d, exclusive) as u32, exclusive) == d,
        forall|t: u32|
            t < doors && t != exclusive ==> #[trigger] unskip_door(t, exclusive) < doors - 1
                && skip_door(unskip_door(t, exclusive), exclusive) == t,
{
}

/// Draws a door uniformly among the `doors` doors other than `exclusive`.
pub fn random_door(doors: u32, exclusive: u32) -> (r: u32)
    requires
        doors >= 2,
        exclusive < doors,
    ensures
        r < doors,
        r != exclusive,
{
    let draw = draw_below(doors - 1);
    door_from_draw(draw, exclusive)
}

} // verus!
