use vstd::prelude::*;
use crate::grid::{tile_at, TilePosition, OPEN};
use crate::puzzle::PuzzleDefinition;

verus! {

/// A direction in which the actor can be asked to step. Movement is
/// horizontal only.
#[derive(Clone, Copy, Debug, PartialEq, Eq, Structural)]
pub enum MoveDirection {
    Left,
    Right,
}

impl MoveDirection {
    /// The change of column that one step in this direction makes.
    pub open spec fn delta(self) -> int {
        match self {
            MoveDirection::Left => -1,
            MoveDirection::Right => 1,
        }
    }

    /// The change of column that one step in this direction makes: -1 to the
    /// left, 1 to the right.
    pub fn as_scalar(&self) -> (scalar: i32)
        ensures
            scalar == self.delta(),
    {
        match self {
            MoveDirection::Left => -1,
            MoveDirection::Right => 1,
        }
    }

    /// The direction asked for by the two movement keys, given which of them
    /// went down just now. Left wins where both did; neither asks for nothing.
    pub fn from_keys(left_pressed: bool, right_pressed: bool) -> (direction: Option<MoveDirection>)
        ensures
            left_pressed ==> direction == Some(MoveDirection::Left),
            !left_pressed && right_pressed ==> direction == Some(MoveDirection::Right),
            !left_pressed && !right_pressed ==> direction is None,
    {
        if left_pressed {
            Some(MoveDirection::Left)
        } else if right_pressed {
            Some(MoveDirection::Right)
        } else {
            None
        }
    }
}

/// Whether the actor can take a movement request.
#[derive(Clone, Copy, Debug, PartialEq, Eq, Structural)]
pub enum MovementState {
    /// At rest on its tile; a request is considered.
    Idle,
    /// Between two tiles as far as the eye is concerned; requests are dropped.
    Transitioning,
}

/// What the outside world tells the actor.
#[derive(Clone, Copy, Debug, PartialEq, Eq, Structural)]
pub enum MovementEvent {
    /// A step in the given direction is asked for.
    Request(MoveDirection),
    /// The visual transition of the last accepted step has ended.
    TransitionComplete,
}

/// What became of a movement request.
#[derive(Clone, Copy, Debug, PartialEq, Eq, Structural)]
pub enum MoveOutcome {
    /// The actor now stands on the neighbouring tile and is in transition.
    Moved,
    /// The neighbouring tile is not open; nothing changed.
    Blocked,
    /// The actor was in transition; the request was dropped.
    Ignored,
}

/// The actor as the rules see it: a column, a row and a movement state.
pub struct Actor {
    pub x: int,
    pub y: int,
    pub state: MovementState,
}

/// The tile code that decides a step of `actor` in `direction`: the code of
/// the tile one column over, in the same row.
pub open spec fn target_code(actor: Actor, direction: MoveDirection, rows: Seq<Seq<i32>>) -> i32 {
    tile_at(rows, actor.x + direction.delta(), actor.y)
}

/// What becomes of a request to step in `direction`.
pub open spec fn outcome_of(actor: Actor, direction: MoveDirection, rows: Seq<Seq<i32>>)
    -> MoveOutcome {
    if actor.state is Transitioning {
        MoveOutcome::Ignored
    } else if target_code(actor, direction, rows) == OPEN {
        MoveOutcome::Moved
    } else {
        MoveOutcome::Blocked
    }
}

/// The actor after a transition has ended: at rest where it stands.
pub open spec fn settle(actor: Actor) -> Actor {
    Actor { x: actor.x, y: actor.y, state: MovementState::Idle }
}

/// The actor after an event. An accepted request moves it one column at once
/// and puts it in transition; any other request changes nothing; the end of
/// a transition puts it at rest.
pub open spec fn step(actor: Actor, event: MovementEvent, rows: Seq<Seq<i32>>) -> Actor {
    match event {
        MovementEvent::Request(direction) => {
            if outcome_of(actor, direction, rows) is Moved {
                Actor {
                    x: actor.x + direction.delta(),
                    y: actor.y,
                    state: MovementState::Transitioning,
                }
            } else {
                actor
            }
        },
        MovementEvent::TransitionComplete => settle(actor),
    }
}

/// Whether the column one step from `actor` in `direction` can be written
/// down as a coordinate.
pub open spec fn step_fits(actor: Actor, direction: MoveDirection) -> bool {
    i32::MIN <= actor.x + direction.delta() <= i32::MAX
}

/// The actor of a level: the tile it stands on and its movement state. Its
/// view is the `Actor` with the same column, row and state.
#[derive(Clone, Copy, Debug, PartialEq, Eq, Structural)]
pub struct Player {
    tile_position: TilePosition,
    state: MovementState,
}

impl View for Player {
    type V = Actor;

    closed spec fn view(&self) -> Actor {
        Actor {
            x: self.tile_position.x as int,
            y: self.tile_position.y as int,
            state: self.state,
        }
    }
}

impl Player {
    /// An actor at rest on the tile `start`.
    pub fn new(start: TilePosition) -> (player: Player)
        ensures
            player@ == (Actor { x: start.x as int, y: start.y as int, state: MovementState::Idle }),
    {
        Player { tile_position: start, state: MovementState::Idle }
    }

    /// The tile the actor stands on.
    pub fn tile_position(&self) -> (position: TilePosition)
        ensures
            position.x == self@.x,
            position.y == self@.y,
    {
        self.tile_position
    }

    /// The movement state.
    pub fn state(&self) -> (state: MovementState)
        ensures
            state == self@.state,
    {
        self.state
    }

    /// The code of the tile one step from the actor in `direction`; the step
    /// is legal where this is the code of an open tile.
    pub fn can_move(&self, direction: MoveDirection, puzzle: &PuzzleDefinition) -> (code: i32)
        ensures
            code == target_code(self@, direction, puzzle@.tiles),
    {
        let _ = puzzle.grid();
        // A column that no coordinate can name lies outside every grid.
        match self.tile_position.x.checked_add(direction.as_scalar()) {
            Some(x) => puzzle.lookup_tile(x, self.tile_position.y),
            None => OPEN,
        }
    }

    /// Asks the actor to step in `direction`. The request is taken only at
    /// rest and only onto an open tile; the actor then stands on that tile at
    /// once and is in transition. Any other request changes nothing.
    pub fn request_move(&mut self, direction: MoveDirection, puzzle: &PuzzleDefinition) -> (outcome:
        MoveOutcome)
        requires
            outcome_of(old(self)@, direction, puzzle@.tiles) is Moved ==> step_fits(
                old(self)@,
                direction,
            ),
        ensures
            outcome == outcome_of(old(self)@, direction, puzzle@.tiles),
            final(self)@ == step(old(self)@, MovementEvent::Request(direction), puzzle@.tiles),
    {
        match self.state {
            MovementState::Transitioning => MoveOutcome::Ignored,
            MovementState::Idle => {
                if self.can_move(direction, puzzle) == OPEN {
                    self.tile_position = TilePosition {
                        x: self.tile_position.x + direction.as_scalar(),
                        y: self.tile_position.y,
                    };
                    self.state = MovementState::Transitioning;
                    MoveOutcome::Moved
                } else {
                    MoveOutcome::Blocked
                }
            },
        }
    }

    /// Tells the actor that its visual transition has ended: it is at rest
    /// again, on the tile it already stands on.
    pub fn complete_transition(&mut self)
        ensures
            final(self)@ == settle(old(self)@),
    {
        self.state = MovementState::Idle;
    }

    /// Hands one event to the actor. A request gives back what became of it;
    /// the end of a transition gives back nothing.
    pub fn handle_event(&mut self, event: MovementEvent, puzzle: &PuzzleDefinition) -> (outcome:
        Option<MoveOutcome>)
        requires
            event matches MovementEvent::Request(direction) ==> (outcome_of(
                old(self)@,
                direction,
                puzzle@.tiles,
            ) is Moved ==> step_fits(old(self)@, direction)),
        ensures
            final(self)@ == step(old(self)@, event, puzzle@.tiles),
            match event {
                MovementEvent::Request(direction) => outcome == Some(
                    outcome_of(old(self)@, direction, puzzle@.tiles),
                ),
                MovementEvent::TransitionComplete => outcome is None,
            },
    {
        match event {
            MovementEvent::Request(direction) => Some(self.request_move(direction, puzzle)),
            MovementEvent::TransitionComplete => {
                self.complete_transition();
                None
            },
        }
    }
}

/// A request made at rest moves the actor exactly one column in the asked
/// direction, in the same row, where the tile there is open; where it is
/// not, the actor stays as it is.
pub proof fn lemma_request_at_rest(actor: Actor, direction: MoveDirection, rows: Seq<Seq<i32>>)
    requires
        actor.state is Idle,
    ensures
        target_code(actor, direction, rows) == OPEN ==> step(
            actor,
            MovementEvent::Request(direction),
            rows,
        ) == (Actor {
            x: actor.x + direction.delta(),
            y: actor.y,
            state: MovementState::Transitioning,
        }),
        target_code(actor, direction, rows) != OPEN ==> step(
            actor,
            MovementEvent::Request(direction),
            rows,
        ) == actor,
{
}

/// A request made in transition changes nothing, whatever the tile asked
/// for. The end of the transition puts the actor at rest on the same tile,
/// and a request made then for an open tile is taken.
pub proof fn lemma_transition_gate(actor: Actor, direction: MoveDirection, rows: Seq<Seq<i32>>)
    requires
        actor.state is Transitioning,
    ensures
        step(actor, MovementEvent::Request(direction), rows) == actor,
        outcome_of(actor, direction, rows) is Ignored,
        step(actor, MovementEvent::TransitionComplete, rows) == (Actor {
            x: actor.x,
            y: actor.y,
            state: MovementState::Idle,
        }),
        target_code(actor, direction, rows) == OPEN ==> step(
            step(actor, MovementEvent::TransitionComplete, rows),
            MovementEvent::Request(direction),
            rows,
        ) == (Actor {
            x: actor.x + direction.delta(),
            y: actor.y,
            state: MovementState::Transitioning,
        }),
{
}

} // verus!
