//! The frame-by-frame control of a game session.
//!
//! The session never touches the keyboard, the rules of the game or the
//! screen. It is a state machine: [`run`] takes what the outside world has just
//! delivered (an [`Event`]) and answers with what has to be done next (an
//! [`Action`]). The program around it performs the action and comes back with
//! the event that results.

use vstd::prelude::*;
use crate::tetris::gamestate::{frame_changed, is_updated, Board, GameState, Piece};

verus! {

/// Columns of the playfield.
pub const WIDTH: usize = 10;

/// Rows of the playfield.
pub const HEIGHT: usize = 20;

/// The symbol that ends the session at once.
pub const QUIT_KEY: char = 'q';

/// The symbol that pauses a running session and resumes a paused one.
pub const PAUSE_KEY: char = 'p';

/// The symbol that swaps the active piece with the held one.
pub const HOLD_KEY: char = 'c';

/// The symbol that stands for "no key".
pub const NO_KEY: char = '\0';

/// The message shown while the session is paused.
pub const PAUSE_BANNER: &'static str = "P A U S E D";

/// The message shown after a loss.
pub const GAME_OVER_BANNER: &'static str = "G A M E  O V E R";

/// Where a session stands. `Paused`, `GameOver` and `Quit` apart, the stages
/// are the stops of a running frame, in the order in which a frame passes
/// them.
#[derive(Debug, Clone, Copy, PartialEq, Eq, Structural)]
pub enum Stage {
    /// Running, at the start of a frame: waiting for the input symbol.
    Input,
    /// Paused: waiting for the symbol that resumes or quits.
    Paused,
    /// Running: waiting for the outcome of the gravity step.
    Gravity,
    /// Running: waiting for the outcome of the input applied to the piece.
    Move,
    /// Running: waiting for the outcome of the hold swap.
    Hold,
    /// Running: waiting for the outcome of line clearing.
    Lines,
    /// Running: waiting for the landing preview.
    Preview,
    /// Running: waiting for the frame to be drawn and flushed.
    Draw,
    /// Ended by a loss.
    GameOver,
    /// Ended by the quit symbol.
    Quit,
}

/// What the outside world hands to the session. Each outcome carries the
/// parts of the game that the work in question may change.
#[derive(Debug, Clone, Copy)]
pub enum Event {
    /// The input symbol that was read; any symbol but the pause and the quit
    /// symbol counts as play, the "no key" symbol included.
    Key(char),
    /// The gravity step was made; `lost` says that the piece that came in had
    /// no room.
    Fell { display: Board, active_piece: Piece, next_piece: Piece, lost: bool },
    /// The frame's symbol was applied to the active piece.
    Moved { display: Board, active_piece: Piece, next_piece: Piece, grav_tick: usize },
    /// The active piece was swapped with the held one.
    Held { display: Board, active_piece: Piece, hold_piece: Option<Piece>, next_piece: Piece },
    /// Full lines were looked for and cleared.
    Cleared { display: Board, gamescore: u64, grav_tick: usize },
    /// The landing preview was laid over the playfield.
    Previewed { display: Board, active_piece: Piece },
    /// The frame was drawn and flushed.
    Drawn,
}

/// What the session asks of the outside world.
#[derive(Debug, Clone, Copy, PartialEq, Eq, Structural)]
pub enum Action {
    /// Read an input symbol and hand it back as `Event::Key`.
    Poll,
    /// Show `PAUSE_BANNER` and flush, then read an input symbol.
    Pause,
    /// Make the gravity step and hand back `Event::Fell`.
    Fall,
    /// Apply `key` to the active piece and hand back `Event::Moved`.
    Move { key: char },
    /// Swap the active piece with the held one and hand back `Event::Held`.
    Hold,
    /// Clear the full lines and hand back `Event::Cleared`.
    ClearLines,
    /// Lay the landing preview over the playfield and hand back
    /// `Event::Previewed`.
    Preview,
    /// Draw the frame, passing on `is_updated`, then flush in any case, and
    /// hand back `Event::Drawn`.
    Draw { is_updated: bool },
    /// Leave the loop, showing `GAME_OVER_BANNER` first if `banner` is set.
    Exit { banner: bool },
}

/// A session as plain values.
#[derive(Debug, Clone, Copy)]
pub struct SessionState {
    /// The game as it stands.
    pub gs: GameState,
    /// The game as it stood when the current frame began.
    pub snapshot: GameState,
    /// Where the session stands.
    pub stage: Stage,
    /// The input symbol of the current frame.
    pub key: char,
}

impl SessionState {
    /// The session at the start of the first frame of a game.
    pub open spec fn start(gs: GameState) -> SessionState {
        SessionState { gs, snapshot: gs, stage: Stage::Input, key: NO_KEY }
    }

    /// Whether the stage lies between the gravity check and the end of a
    /// frame.
    pub open spec fn in_frame(self) -> bool {
        self.stage == Stage::Move || self.stage == Stage::Hold || self.stage == Stage::Lines
            || self.stage == Stage::Preview || self.stage == Stage::Draw
    }

    /// What holds of every session that began with `Session::new`: the frame
    /// counter has room for the step that ends the frame, and the game-over
    /// flag is set exactly in the `GameOver` stage.
    pub open spec fn wf(self) -> bool {
        &&& self.in_frame() ==> self.gs.counter < usize::MAX
        &&& self.gs.is_game_over <==> self.stage == Stage::GameOver
    }

    /// Whether the session has ended.
    pub open spec fn ended(self) -> bool {
        self.stage == Stage::GameOver || self.stage == Stage::Quit
    }

    /// The request that is open in a stage.
    pub open spec fn pending(self) -> Action {
        match self.stage {
            Stage::Input => Action::Poll,
            Stage::Paused => Action::Poll,
            Stage::Gravity => Action::Fall,
            Stage::Move => Action::Move { key: self.key },
            Stage::Hold => Action::Hold,
            Stage::Lines => Action::ClearLines,
            Stage::Preview => Action::Preview,
            Stage::Draw => Action::Draw { is_updated: frame_changed(self.gs, self.snapshot) },
            Stage::GameOver => Action::Exit { banner: true },
            Stage::Quit => Action::Exit { banner: false },
        }
    }

    /// The session moved to a stage, with the request that is open there.
    pub open spec fn goto(self, stage: Stage) -> (SessionState, Action) {
        let s = SessionState { stage, ..self };
        (s, s.pending())
    }

    /// The work of a frame begun for `key`: the gravity step first if the
    /// frame counter has reached the threshold, else the input at once.
    pub open spec fn begin_frame(self, key: char) -> (SessionState, Action) {
        let s = SessionState { key, ..self };
        if s.gs.counter >= s.gs.grav_tick {
            s.goto(Stage::Gravity)
        } else {
            s.goto(Stage::Move)
        }
    }

    /// A symbol read at the start of a frame. The state is kept as the
    /// snapshot; then the symbol quits, pauses or begins the frame's work.
    pub open spec fn on_key(self, key: char) -> (SessionState, Action) {
        let s = SessionState { snapshot: self.gs, ..self };
        if key == QUIT_KEY {
            s.goto(Stage::Quit)
        } else if key == PAUSE_KEY {
            (SessionState { stage: Stage::Paused, key, ..s }, Action::Pause)
        } else {
            s.begin_frame(key)
        }
    }

    /// A symbol read while paused. The pause symbol resumes the frame that the
    /// pause interrupted, the quit symbol ends the session, and every other
    /// symbol is consumed.
    pub open spec fn on_pause_key(self, key: char) -> (SessionState, Action) {
        if key == PAUSE_KEY {
            self.begin_frame(PAUSE_KEY)
        } else if key == QUIT_KEY {
            self.goto(Stage::Quit)
        } else {
            (self, Action::Poll)
        }
    }

    /// The outcome of a gravity step. A loss sets the game-over flag and ends
    /// the session there and then; otherwise the frame counter starts again
    /// and the input follows.
    pub open spec fn on_fell(
        self,
        display: Board,
        active_piece: Piece,
        next_piece: Piece,
        lost: bool,
    ) -> (SessionState, Action) {
        let gs = GameState { display, active_piece, next_piece, ..self.gs };
        if lost {
            SessionState { gs: GameState { is_game_over: true, ..gs }, ..self }.goto(
                Stage::GameOver,
            )
        } else {
            SessionState { gs: GameState { counter: 0, ..gs }, ..self }.goto(Stage::Move)
        }
    }

    /// The outcome of the input. The hold swap follows if the frame's symbol
    /// asks for it, else line clearing.
    pub open spec fn on_moved(
        self,
        display: Board,
        active_piece: Piece,
        next_piece: Piece,
        grav_tick: usize,
    ) -> (SessionState, Action) {
        let gs = GameState { display, active_piece, next_piece, grav_tick, ..self.gs };
        let s = SessionState { gs, ..self };
        if self.key == HOLD_KEY {
            s.goto(Stage::Hold)
        } else {
            s.goto(Stage::Lines)
        }
    }

    /// The outcome of the hold swap; line clearing follows.
    pub open spec fn on_held(
        self,
        display: Board,
        active_piece: Piece,
        hold_piece: Option<Piece>,
        next_piece: Piece,
    ) -> (SessionState, Action) {
        let gs = GameState { display, active_piece, hold_piece, next_piece, ..self.gs };
        SessionState { gs, ..self }.goto(Stage::Lines)
    }

    /// The outcome of line clearing; the landing preview follows.
    pub open spec fn on_cleared(self, display: Board, gamescore: u64, grav_tick: usize) -> (
        SessionState,
        Action,
    ) {
        let gs = GameState { display, gamescore, grav_tick, ..self.gs };
        SessionState { gs, ..self }.goto(Stage::Preview)
    }

    /// The landing preview is in place: the frame is compared with the
    /// snapshot and drawn.
    pub open spec fn on_previewed(self, display: Board, active_piece: Piece) -> (
        SessionState,
        Action,
    ) {
        let gs = GameState { display, active_piece, ..self.gs };
        SessionState { gs, ..self }.goto(Stage::Draw)
    }

    /// The frame is on the screen: the frame counter advances and the next
    /// frame begins.
    pub open spec fn on_drawn(self) -> (SessionState, Action) {
        let gs = GameState { counter: (self.gs.counter + 1) as usize, ..self.gs };
        SessionState { gs, ..self }.goto(Stage::Input)
    }

    /// One step of the session: the state after an event, and the action asked
    /// for. An event that the stage does not wait for changes nothing and gets
    /// the open request again.
    pub open spec fn step(self, event: Event) -> (SessionState, Action) {
        match (self.stage, event) {
            (Stage::Input, Event::Key(key)) => self.on_key(key),
            (Stage::Paused, Event::Key(key)) => self.on_pause_key(key),
            (Stage::Gravity, Event::Fell { display, active_piece, next_piece, lost }) => self.on_fell(
                display,
                active_piece,
                next_piece,
                lost,
            ),
            (
                Stage::Move,
                Event::Moved { display, active_piece, next_piece, grav_tick },
            ) => self.on_moved(display, active_piece, next_piece, grav_tick),
            (
                Stage::Hold,
                Event::Held { display, active_piece, hold_piece, next_piece },
            ) => self.on_held(display, active_piece, hold_piece, next_piece),
            (Stage::Lines, Event::Cleared { display, gamescore, grav_tick }) => self.on_cleared(
                display,
                gamescore,
                grav_tick,
            ),
            (Stage::Preview, Event::Previewed { display, active_piece }) => self.on_previewed(
                display,
                active_piece,
            ),
            (Stage::Draw, Event::Drawn) => self.on_drawn(),
            _ => (self, self.pending()),
        }
    }

    fn pending_action(&self) -> (action: Action)
        ensures
            action == self.pending(),
    {
        match self.stage {
            Stage::Input => Action::Poll,
            Stage::Paused => Action::Poll,
            Stage::Gravity => Action::Fall,
            Stage::Move => Action::Move { key: self.key },
            Stage::Hold => Action::Hold,
            Stage::Lines => Action::ClearLines,
            Stage::Preview => Action::Preview,
            Stage::Draw => Action::Draw { is_updated: is_updated(&self.gs, &self.snapshot) },
            Stage::GameOver => Action::Exit { banner: true },
            Stage::Quit => Action::Exit { banner: false },
        }
    }

    fn enter(self, stage: Stage) -> (out: (SessionState, Action))
        ensures
            out == self.goto(stage),
    {
        let s = SessionState { stage, ..self };
        let action = s.pending_action();
        (s, action)
    }

    fn start_frame(self, key: char) -> (out: (SessionState, Action))
        ensures
            out == self.begin_frame(key),
    {
        let s = SessionState { key, ..self };
        if s.gs.counter >= s.gs.grav_tick {
            s.enter(Stage::Gravity)
        } else {
            s.enter(Stage::Move)
        }
    }

    fn key_read(self, key: char) -> (out: (SessionState, Action))
        ensures
            out == self.on_key(key),
    {
        let s = SessionState { snapshot: self.gs, ..self };
        if key == QUIT_KEY {
            s.enter(Stage::Quit)
        } else if key == PAUSE_KEY {
            (SessionState { stage: Stage::Paused, key, ..s }, Action::Pause)
        } else {
            s.start_frame(key)
        }
    }

    fn pause_key_read(self, key: char) -> (out: (SessionState, Action))
        ensures
            out == self.on_pause_key(key),
    {
        if key == PAUSE_KEY {
            self.start_frame(PAUSE_KEY)
        } else if key == QUIT_KEY {
            self.enter(Stage::Quit)
        } else {
            (self, Action::Poll)
        }
    }

    fn fell(self, display: Board, active_piece: Piece, next_piece: Piece, lost: bool) -> (out: (
        SessionState,
        Action,
    ))
        ensures
            out == self.on_fell(display, active_piece, next_piece, lost),
    {
        let gs = GameState { display, active_piece, next_piece, ..self.gs };
        if lost {
            SessionState { gs: GameState { is_game_over: true, ..gs }, ..self }.enter(
                Stage::GameOver,
            )
        } else {
            SessionState { gs: GameState { counter: 0, ..gs }, ..self }.enter(Stage::Move)
        }
    }

    fn moved(
        self,
        display: Board,
        active_piece: Piece,
        next_piece: Piece,
        grav_tick: usize,
    ) -> (out: (SessionState, Action))
        ensures
            out == self.on_moved(display, active_piece, next_piece, grav_tick),
    {
        let gs = GameState { display, active_piece, next_piece, grav_tick, ..self.gs };
        let s = SessionState { gs, ..self };
        if self.key == HOLD_KEY {
            s.enter(Stage::Hold)
        } else {
            s.enter(Stage::Lines)
        }
    }

    fn held(
        self,
        display: Board,
        active_piece: Piece,
        hold_piece: Option<Piece>,
        next_piece: Piece,
    ) -> (out: (SessionState, Action))
        ensures
            out == self.on_held(display, active_piece, hold_piece, next_piece),
    {
        let gs = GameState { display, active_piece, hold_piece, next_piece, ..self.gs };
        SessionState { gs, ..self }.enter(Stage::Lines)
    }

    fn cleared(self, display: Board, gamescore: u64, grav_tick: usize) -> (out: (
        SessionState,
        Action,
    ))
        ensures
            out == self.on_cleared(display, gamescore, grav_tick),
    {
        let gs = GameState { display, gamescore, grav_tick, ..self.gs };
        SessionState { gs, ..self }.enter(Stage::Preview)
    }

    fn previewed(self, display: Board, active_piece: Piece) -> (out: (SessionState, Action))
        ensures
            out == self.on_previewed(display, active_piece),
    {
        let gs = GameState { display, active_piece, ..self.gs };
        SessionState { gs, ..self }.enter(Stage::Draw)
    }

    fn drawn(self) -> (out: (SessionState, Action))
        requires
            self.gs.counter < usize::MAX,
        ensures
            out == self.on_drawn(),
    {
        let gs = GameState { counter: self.gs.counter + 1, ..self.gs };
        SessionState { gs, ..self }.enter(Stage::Input)
    }

    fn advance(self, event: Event) -> (out: (SessionState, Action))
        requires
            self.wf(),
        ensures
            out == self.step(event),
            out.0.wf(),
    {
        match (self.stage, event) {
            (Stage::Input, Event::Key(key)) => self.key_read(key),
            (Stage::Paused, Event::Key(key)) => self.pause_key_read(key),
            (Stage::Gravity, Event::Fell { display, active_piece, next_piece, lost }) => self.fell(
                display,
                active_piece,
                next_piece,
                lost,
            ),
            (
                Stage::Move,
                Event::Moved { display, active_piece, next_piece, grav_tick },
            ) => self.moved(display, active_piece, next_piece, grav_tick),
            (
                Stage::Hold,
                Event::Held { display, active_piece, hold_piece, next_piece },
            ) => self.held(display, active_piece, hold_piece, next_piece),
            (Stage::Lines, Event::Cleared { display, gamescore, grav_tick }) => self.cleared(
                display,
                gamescore,
                grav_tick,
            ),
            (Stage::Preview, Event::Previewed { display, active_piece }) => self.previewed(
                display,
                active_piece,
            ),
            (Stage::Draw, Event::Drawn) => self.drawn(),
            _ => (self, self.pending_action()),
        }
    }
}

/// A game session.
pub struct Session {
    inner: SessionState,
}

impl Session {
    #[verifier::type_invariant]
    spec fn well_formed(self) -> bool {
        self.inner.wf()
    }

    /// The session as plain values.
    pub closed spec fn view(&self) -> SessionState {
        self.inner
    }

    /// A session at the start of its first frame, with the two pieces that
    /// were drawn for it.
    pub fn new(active_piece: Piece, next_piece: Piece) -> (session: Session)
        ensures
            session@.gs.is_fresh(active_piece, next_piece),
            session@ == SessionState::start(session@.gs),
            session@.wf(),
    {
        let gs = GameState::new(active_piece, next_piece);
        Session { inner: SessionState { gs, snapshot: gs, stage: Stage::Input, key: NO_KEY } }
    }

    /// The game as it stands.
    pub fn state(&self) -> (gs: GameState)
        ensures
            gs == self@.gs,
            self@.wf(),
    {
        proof {
            use_type_invariant(self);
        }
        self.inner.gs
    }

    /// Where the session stands.
    pub fn stage(&self) -> (stage: Stage)
        ensures
            stage == self@.stage,
    {
        self.inner.stage
    }

    /// The request that is open: what to do first, and what to do again after
    /// an event that did not fit.
    pub fn pending(&self) -> (action: Action)
        ensures
            action == self@.pending(),
    {
        self.inner.pending_action()
    }
}

/// Runs the session from one event to its next request: takes in what the
/// outside world has delivered and answers with what it has to do now. An
/// event that the session is not waiting for changes nothing and is answered
/// with the request that is open.
pub fn run(session: &mut Session, event: Event) -> (action: Action)
    ensures
        (final(session)@, action) == old(session)@.step(event),
        old(session)@.wf(),
        final(session)@.wf(),
{
    proof {
        use_type_invariant(&*session);
    }
    let (next, action) = session.inner.advance(event);
    session.inner = next;
    action
}

/// The loss banner goes with a loss and with nothing else. A step asks to
/// leave the loop exactly when it ends in a final stage, with the banner
/// exactly when that stage is `GameOver`. A session enters `GameOver` only on a
/// gravity step that reports a loss, and `Quit` only on the quit symbol, read
/// at the start of a frame or while paused. A session that has ended stays as
/// it is.
pub proof fn lemma_exit_banner(s: SessionState, event: Event)
    requires
        s.wf(),
    ensures
        ({
            let (t, action) = s.step(event);
            &&& t.wf()
            &&& action is Exit <==> t.ended()
            &&& action == (Action::Exit { banner: true }) <==> t.stage == Stage::GameOver
            &&& action == (Action::Exit { banner: false }) <==> t.stage == Stage::Quit
            &&& t.gs.is_game_over <==> t.stage == Stage::GameOver
            &&& s.ended() ==> t == s
            &&& !s.ended() && t.stage == Stage::Quit <==> (s.stage == Stage::Input || s.stage
                == Stage::Paused) && event == Event::Key(QUIT_KEY)
            &&& !s.ended() && t.stage == Stage::GameOver <==> s.stage == Stage::Gravity && (
            event matches Event::Fell { lost, .. } && lost)
        }),
{
}

/// A pause freezes the game. Entering it changes nothing of the game state;
/// while it lasts, every symbol but the pause and the quit symbol is consumed
/// and every other event is ignored; and leaving it with the pause symbol
/// continues exactly as the frame would have gone on for that symbol had the
/// pause not been entered.
pub proof fn lemma_pause_freezes(s: SessionState, event: Event)
    requires
        s.wf(),
        s.stage == Stage::Input,
    ensures
        ({
            let (paused, shown) = s.step(Event::Key(PAUSE_KEY));
            let unpaused = SessionState { snapshot: s.gs, ..s }.begin_frame(PAUSE_KEY);
            &&& shown == Action::Pause
            &&& paused.stage == Stage::Paused
            &&& paused.gs == s.gs
            &&& paused.snapshot == s.gs
            &&& paused.step(Event::Key(PAUSE_KEY)) == unpaused
            &&& unpaused.0.gs == s.gs
            &&& unpaused.0.stage == Stage::Gravity || unpaused.0.stage == Stage::Move
            &&& event != Event::Key(PAUSE_KEY) && event != Event::Key(QUIT_KEY) ==> paused.step(
                event,
            ) == (paused, Action::Poll)
        }),
{
}

/// Gravity goes by the frame counter alone. A frame begun for a symbol of play
/// asks for the gravity step exactly when the counter has reached the
/// threshold, and for the input otherwise; a gravity step without loss starts
/// the counter again; and a frame that has been drawn leaves the counter one
/// higher.
pub proof fn lemma_gravity_timing(s: SessionState, key: char, event: Event)
    requires
        s.wf(),
        key != QUIT_KEY,
        key != PAUSE_KEY,
    ensures
        s.stage == Stage::Input ==> s.step(Event::Key(key)).1 == if s.gs.counter
            >= s.gs.grav_tick {
            Action::Fall
        } else {
            (Action::Move { key })
        },
        s.stage == Stage::Input ==> s.step(Event::Key(key)).0.gs == s.gs,
        s.stage == Stage::Gravity ==> (event matches Event::Fell { lost, .. } && !lost ==> s.step(
            event,
        ).0.gs.counter == 0 && s.step(event).1 == (Action::Move { key: s.key })),
        s.stage == Stage::Draw ==> s.step(Event::Drawn).0.gs == (GameState {
            counter: (s.gs.counter + 1) as usize,
            ..s.gs
        }) && s.step(Event::Drawn).1 == Action::Poll,
{
}

/// The stops of a frame come in one order: the input, the hold swap if and
/// only if the frame's symbol is the hold symbol, line clearing, the landing
/// preview, the drawing with the outcome of the comparison, and the next
/// frame's input. Each outcome replaces the parts of the game that it carries
/// and nothing else.
pub proof fn lemma_frame_order(s: SessionState, event: Event)
    requires
        s.wf(),
    ensures
        s.stage == Stage::Move && event is Moved ==> s.step(event).1 == if s.key == HOLD_KEY {
            Action::Hold
        } else {
            Action::ClearLines
        },
        s.stage == Stage::Hold && event is Held ==> s.step(event).1 == Action::ClearLines,
        s.stage == Stage::Lines && event is Cleared ==> s.step(event).1 == Action::Preview,
        s.stage == Stage::Preview && event is Previewed ==> s.step(event).1 == (Action::Draw {
            is_updated: frame_changed(s.step(event).0.gs, s.snapshot),
        }),
        s.stage == Stage::Draw && event is Drawn ==> s.step(event).1 == Action::Poll,
        s.step(event).0.snapshot == if s.stage == Stage::Input && event is Key {
            s.gs
        } else {
            s.snapshot
        },
        s.step(event).0.gs.counter == s.gs.counter || (s.stage == Stage::Gravity && event is Fell)
            || (s.stage == Stage::Draw && event is Drawn),
        s.step(event).0.gs.gamescore == s.gs.gamescore || (s.stage == Stage::Lines
            && event is Cleared),
        s.step(event).0.gs.hold_piece == s.gs.hold_piece || (s.stage == Stage::Hold
            && event is Held),
        s.step(event).0.gs.grav_tick == s.gs.grav_tick || (s.stage == Stage::Move
            && event is Moved) || (s.stage == Stage::Lines && event is Cleared),
{
}

/// The session after one whole frame for the symbol `key` in which every
/// outcome hands the game back as it was.
pub open spec fn idle_frame(s: SessionState, key: char) -> SessionState {
    let gs = s.gs;
    let begun = s.step(Event::Key(key)).0;
    let moved = begun.step(
        Event::Moved {
            display: gs.display,
            active_piece: gs.active_piece,
            next_piece: gs.next_piece,
            grav_tick: gs.grav_tick,
        },
    ).0;
    let held = moved.step(
        Event::Held {
            display: gs.display,
            active_piece: gs.active_piece,
            hold_piece: gs.hold_piece,
            next_piece: gs.next_piece,
        },
    ).0;
    let cleared = held.step(
        Event::Cleared { display: gs.display, gamescore: gs.gamescore, grav_tick: gs.grav_tick },
    ).0;
    let previewed = cleared.step(
        Event::Previewed { display: gs.display, active_piece: gs.active_piece },
    ).0;
    previewed.step(Event::Drawn).0
}

/// The session after `frames` such frames.
pub open spec fn idle_frames(s: SessionState, key: char, frames: nat) -> SessionState
    decreases frames,
{
    if frames == 0 {
        s
    } else {
        idle_frame(idle_frames(s, key, (frames - 1) as nat), key)
    }
}

/// Frames in which nothing happens only count. While the frame counter is
/// below the threshold, a frame for a symbol of play whose outcomes change
/// nothing leaves the game as it was but for the counter, which is one higher;
/// the gravity step is not asked for, and the frame need not be drawn again.
pub proof fn lemma_idle_frame(s: SessionState, key: char)
    requires
        s.wf(),
        s.stage == Stage::Input,
        key != QUIT_KEY,
        key != PAUSE_KEY,
        s.gs.counter < s.gs.grav_tick,
    ensures
        idle_frame(s, key) == (SessionState {
            gs: GameState { counter: (s.gs.counter + 1) as usize, ..s.gs },
            snapshot: s.gs,
            stage: Stage::Input,
            key,
        }),
        idle_frame(s, key).wf(),
        s.step(Event::Key(key)).1 == (Action::Move { key }),
        !frame_changed(s.gs, s.gs),
{
}

/// So a session whose counter stands at 0 asks for its first gravity step in
/// the frame that follows the first `grav_tick` idle frames, and in no frame
/// before: after `frames` idle frames the counter stands at `frames`, and the
/// next frame begins with the gravity step exactly when that is the threshold.
pub proof fn lemma_idle_frames(s: SessionState, key: char, frames: nat)
    requires
        s.wf(),
        s.stage == Stage::Input,
        key != QUIT_KEY,
        key != PAUSE_KEY,
        s.gs.counter + frames <= s.gs.grav_tick,
    ensures
        ({
            let t = idle_frames(s, key, frames);
            &&& t.wf()
            &&& t.stage == Stage::Input
            &&& t.gs == (GameState { counter: (s.gs.counter + frames) as usize, ..s.gs })
            &&& t.step(Event::Key(key)).1 == if s.gs.counter + frames == s.gs.grav_tick {
                Action::Fall
            } else {
                (Action::Move { key })
            }
        }),
    decreases frames,
{
    if frames > 0 {
        let before = idle_frames(s, key, (frames - 1) as nat);
        lemma_idle_frames(s, key, (frames - 1) as nat);
        lemma_idle_frame(before, key);
    }
}

} // verus!
