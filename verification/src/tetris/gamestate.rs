//! The data of a game session: playfield, pieces, score and timers.

use vstd::prelude::*;
use crate::tetris::game::{HEIGHT, WIDTH};

verus! {

/// Frames between two gravity steps at the start of a session.
pub const INITIAL_GRAV_TICK: usize = 250;

/// A piece, as the rules describe it: which shape, how often turned, and where
/// on the playfield. The session only stores, hands on and compares pieces.
#[derive(Debug, Clone, Copy, PartialEq, Eq, Structural)]
pub struct Piece {
    pub shape: u8,
    pub rotation: u8,
    pub row: i16,
    pub col: i16,
}

/// The playfield, row by row; a cell holds 0 where it is empty.
#[derive(Debug, Clone, Copy)]
pub struct Board {
    pub cells: [[u8; WIDTH]; HEIGHT],
}

impl Board {
    /// The playfield as rows of cells.
    pub open spec fn view(&self) -> Seq<Seq<u8>> {
        Seq::new(HEIGHT as nat, |r: int| self.cells[r]@)
    }

    /// A playfield with nothing on it.
    pub fn empty() -> (board: Board)
        ensures
            forall|r: int, c: int| 0 <= r < HEIGHT && 0 <= c < WIDTH ==> board@[r][c] == 0,
    {
        Board { cells: [[0u8; WIDTH]; HEIGHT] }
    }

    /// Whether two playfields agree in every cell.
    pub fn same_as(&self, other: &Board) -> (same: bool)
        ensures
            same == (*self == *other),
            same == (self@ == other@),
    {
        let mut same = true;
        for r in 0..HEIGHT
            invariant
                same == (forall|i: int, j: int|
                    0 <= i < r && 0 <= j < WIDTH ==> self.cells[i][j] == other.cells[i][j]),
        {
            for c in 0..WIDTH
                invariant
                    r < HEIGHT,
                    same == ((forall|i: int, j: int|
                        0 <= i < r && 0 <= j < WIDTH ==> self.cells[i][j] == other.cells[i][j])
                        && (forall|j: int|
                        0 <= j < c ==> self.cells[r as int][j] == other.cells[r as int][j])),
            {
                if self.cells[r][c] != other.cells[r][c] {
                    same = false;
                }
            }
        }
        proof {
            if same {
                assert forall|i: int| 0 <= i < HEIGHT implies self.cells[i] == other.cells[i] by {
                    assert(self.cells[i] =~= other.cells[i]);
                }
                assert(self.cells =~= other.cells);
                assert(self@ =~~= other@);
            } else {
                let (i, j) = choose|i: int, j: int|
                    0 <= i < HEIGHT && 0 <= j < WIDTH && self.cells[i][j] != other.cells[i][j];
                assert(self@[i][j] != other@[i][j]);
            }
        }
        same
    }
}

/// Everything a game session holds between two frames.
#[derive(Debug, Clone, Copy)]
pub struct GameState {
    /// The playfield.
    pub display: Board,
    /// The piece that is falling.
    pub active_piece: Piece,
    /// The piece that comes next.
    pub next_piece: Piece,
    /// The piece set aside, if any.
    pub hold_piece: Option<Piece>,
    /// The score.
    pub gamescore: u64,
    /// Frames since the last gravity step.
    pub counter: usize,
    /// Value of `counter` at which the active piece is made to fall.
    pub grav_tick: usize,
    /// Set once a new piece has no room to appear.
    pub is_game_over: bool,
}

impl GameState {
    /// Whether two states show the same frame: the same playfield, pieces,
    /// score and game-over flag. The two timers are not part of the picture.
    pub open spec fn same_frame(self, other: GameState) -> bool {
        &&& self.display == other.display
        &&& self.active_piece == other.active_piece
        &&& self.next_piece == other.next_piece
        &&& self.hold_piece == other.hold_piece
        &&& self.gamescore == other.gamescore
        &&& self.is_game_over == other.is_game_over
    }

    /// Whether this is the state at the start of a session: an empty
    /// playfield, the two pieces given, nothing held, no score, both timers at
    /// their start.
    pub open spec fn is_fresh(self, active_piece: Piece, next_piece: Piece) -> bool {
        &&& forall|r: int, c: int| 0 <= r < HEIGHT && 0 <= c < WIDTH ==> self.display@[r][c] == 0
        &&& self.active_piece == active_piece
        &&& self.next_piece == next_piece
        &&& self.hold_piece.is_none()
        &&& self.gamescore == 0
        &&& self.counter == 0
        &&& self.grav_tick == INITIAL_GRAV_TICK
        &&& !self.is_game_over
    }

    /// The state at the start of a session.
    pub fn new(active_piece: Piece, next_piece: Piece) -> (gs: GameState)
        ensures
            gs.is_fresh(active_piece, next_piece),
    {
        GameState {
            display: Board::empty(),
            active_piece,
            next_piece,
            hold_piece: None,
            gamescore: 0,
            counter: 0,
            grav_tick: INITIAL_GRAV_TICK,
            is_game_over: false,
        }
    }
}

impl PartialEq for GameState {
    /// Two states are equal when they show the same frame.
    fn eq(&self, other: &GameState) -> (same: bool) {
        let held = match (self.hold_piece, other.hold_piece) {
            (Some(a), Some(b)) => a == b,
            (None, None) => true,
            _ => false,
        };
        self.display.same_as(&other.display) && self.active_piece == other.active_piece
            && self.next_piece == other.next_piece && held && self.gamescore == other.gamescore
            && self.is_game_over == other.is_game_over
    }
}

impl vstd::std_specs::cmp::PartialEqSpecImpl for GameState {
    open spec fn obeys_eq_spec() -> bool {
        true
    }

    open spec fn eq_spec(&self, other: &GameState) -> bool {
        self.same_frame(*other)
    }
}

/// Whether a frame has to be drawn again: the state no longer shows the frame
/// of the snapshot, or the game is over.
pub open spec fn frame_changed(current: GameState, snapshot: GameState) -> bool {
    !current.same_frame(snapshot) || current.is_game_over
}

/// Decides whether the frame has to be drawn again.
pub fn is_updated(current: &GameState, snapshot: &GameState) -> (updated: bool)
    ensures
        updated == frame_changed(*current, *snapshot),
{
    *current != *snapshot || current.is_game_over
}

/// A change of the score alone makes a frame count as changed, and so does a
/// change of any other part of the picture. Two states that agree in all of
/// them, with the game not over, do not.
pub proof fn lemma_dirty_check(current: GameState, snapshot: GameState)
    ensures
        current.gamescore != snapshot.gamescore ==> frame_changed(current, snapshot),
        current.display != snapshot.display ==> frame_changed(current, snapshot),
        current.active_piece != snapshot.active_piece ==> frame_changed(current, snapshot),
        current.next_piece != snapshot.next_piece ==> frame_changed(current, snapshot),
        current.hold_piece != snapshot.hold_piece ==> frame_changed(current, snapshot),
        current.is_game_over ==> frame_changed(current, snapshot),
        current == snapshot && !current.is_game_over ==> !frame_changed(current, snapshot),
        current.same_frame(snapshot) && !current.is_game_over ==> !frame_changed(current, snapshot),
{
}

} // verus!
