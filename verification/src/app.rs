//! The controller of a running simulation: it owns the grid, knows whether
//! the simulation is playing, and decides what each event of the user
//! interface does to both.

use vstd::prelude::*;
use std::time::Instant;
use crate::board::Board;
use crate::game::GameOfLife;
use crate::random::random_range;
use crate::random::thread_rng;

verus! {

/// While the simulation plays, the grid advances once more than this many
/// nanoseconds have passed since it last advanced by itself.
pub const TICK_NANOS: u128 = 200_000_000;

/// The smallest number of rows or columns of a regenerated grid.
pub const MIN_SIDE: usize = 10;

/// The bound that the number of rows or columns of a regenerated grid stays
/// below.
pub const MAX_SIDE: usize = 60;

/// The chance with which the cells of a random grid are alive is drawn as a
/// whole number of parts out of this many.
pub const CHANCE_STEPS: u32 = 1_000_000;

/// What the user interface reports to the controller.
#[derive(Clone, Copy, Debug)]
pub enum UiEvent {
    /// A new frame begins.
    Frame,
    /// The user asks to leave the simulation.
    Back,
    /// The user starts the simulation.
    Play,
    /// The user halts the simulation.
    Stop,
    /// The user asks for a single generation step.
    Next,
    /// The user asks for a new grid with random cells.
    GenerateRandom,
    /// The user asks for a new grid without live cells.
    GenerateBlank,
    /// The user clicked on the position `(row, col)` of the drawn grid.
    Click { row: usize, col: usize },
}

/// The controller as a plain value.
pub struct AppState {
    pub game: Board,
    pub running: bool,
    /// The clock reading from which the wait for the next automatic step is
    /// measured.
    pub last_update: Instant,
}

impl AppState {
    /// Whether handling `event` in this state may end in the state `next`.
    ///
    /// The buttons `Back`, `Play`, `Stop` and `Next` and a click decide
    /// `next`. A frame advances the grid or not, by the clock, and only
    /// while the simulation is playing. A regenerated grid has a size within
    /// the limits; a blank one has no live cell, a random one any cells.
    pub open spec fn leads_to(self, event: UiEvent, next: AppState) -> bool {
        &&& next.running == match event {
            UiEvent::Play => true,
            UiEvent::Stop => false,
            _ => self.running,
        }
        &&& match event {
            UiEvent::Frame => {
                ||| next.game == self.game && next.last_update == self.last_update
                ||| self.running && next.game == self.game.step()
            },
            UiEvent::Back | UiEvent::Play | UiEvent::Stop => {
                &&& next.game == self.game
                &&& next.last_update == self.last_update
            },
            UiEvent::Next => {
                &&& next.game == self.game.step()
                &&& next.last_update == self.last_update
            },
            UiEvent::GenerateRandom => {
                &&& next.game.wf()
                &&& MIN_SIDE <= next.game.rows < MAX_SIDE
                &&& MIN_SIDE <= next.game.cols < MAX_SIDE
                &&& next.last_update == self.last_update
            },
            UiEvent::GenerateBlank => {
                &&& MIN_SIDE <= next.game.rows < MAX_SIDE
                &&& MIN_SIDE <= next.game.cols < MAX_SIDE
                &&& next.game == Board::uniform(next.game.rows, next.game.cols, 0)
                &&& next.last_update == self.last_update
            },
            UiEvent::Click { row, col } => {
                &&& next.game == (if self.game.in_bounds(row as int, col as int) {
                    self.game.toggled(row as int, col as int)
                } else {
                    self.game
                })
                &&& next.last_update == self.last_update
            },
        }
    }
}

/// A simulation together with its play state and its timer.
pub struct GameOfLifeApp {
    game: GameOfLife,
    running: bool,
    last_update: Instant,
}

impl View for GameOfLifeApp {
    type V = AppState;

    closed spec fn view(&self) -> AppState {
        AppState { game: self.game@, running: self.running, last_update: self.last_update }
    }
}

impl GameOfLifeApp {
    /// Starts halted, with a random grid of 30 rows and 40 columns in which
    /// each cell is alive with probability 21 in 100.
    pub fn new() -> (app: Self)
        ensures
            app@.game.wf(),
            app@.game.rows == 30,
            app@.game.cols == 40,
            !app@.running,
    {
        GameOfLifeApp {
            game: GameOfLife::generate_game(30, 40, 21, 100),
            running: false,
            last_update: Instant::now(),
        }
    }

    /// The grid.
    pub fn game(&self) -> (game: &GameOfLife)
        ensures
            game@ == self@.game,
    {
        &self.game
    }

    /// Whether the simulation is playing.
    pub fn is_running(&self) -> (running: bool)
        ensures
            running == self@.running,
    {
        self.running
    }

    /// Lets the timer act after `waited_nanos` nanoseconds without an
    /// automatic step: the grid advances by one generation if the simulation
    /// is playing and the wait was longer than `TICK_NANOS`. Reports whether
    /// the grid advanced. The clock reading from which the wait is measured
    /// stays as it is.
    pub fn tick(&mut self, waited_nanos: u128) -> (advanced: bool)
        requires
            old(self)@.game.wf(),
        ensures
            advanced == (old(self)@.running && waited_nanos > TICK_NANOS),
            final(self)@.game == (if advanced {
                old(self)@.game.step()
            } else {
                old(self)@.game
            }),
            final(self)@.game.wf(),
            final(self)@.running == old(self)@.running,
            final(self)@.last_update == old(self)@.last_update,
    {
        if self.running && waited_nanos > TICK_NANOS {
            self.game.update();
            true
        } else {
            false
        }
    }

    /// Flips the cell at `(row, col)` if the grid has such a cell, and does
    /// nothing otherwise.
    pub fn click(&mut self, row: usize, col: usize)
        requires
            old(self)@.game.wf(),
        ensures
            final(self)@.game == (if old(self)@.game.in_bounds(row as int, col as int) {
                old(self)@.game.toggled(row as int, col as int)
            } else {
                old(self)@.game
            }),
            final(self)@.game.wf(),
            final(self)@.running == old(self)@.running,
            final(self)@.last_update == old(self)@.last_update,
    {
        if row < self.game.rows() && col < self.game.cols() {
            self.game.toggle(row, col);
        }
    }

    /// Replaces the grid by a new one whose numbers of rows and of columns
    /// are drawn from `MIN_SIDE..MAX_SIDE`. With `blank` no cell of it is
    /// alive; without, the chance of a cell to be alive is drawn too.
    fn regenerate(&mut self, blank: bool)
        ensures
            final(self)@.game.wf(),
            MIN_SIDE <= final(self)@.game.rows < MAX_SIDE,
            MIN_SIDE <= final(self)@.game.cols < MAX_SIDE,
            blank ==> final(self)@.game == Board::uniform(
                final(self)@.game.rows,
                final(self)@.game.cols,
                0,
            ),
            final(self)@.running == old(self)@.running,
            final(self)@.last_update == old(self)@.last_update,
    {
        let mut rng = thread_rng();
        let rows = random_range(&mut rng, MIN_SIDE, MAX_SIDE);
        let cols = random_range(&mut rng, MIN_SIDE, MAX_SIDE);
        let chance: u32 = if blank {
            0
        } else {
            random_range(&mut rng, 0, CHANCE_STEPS as usize) as u32
        };
        assert(rows * cols <= 3600) by (nonlinear_arith)
            requires
                rows < 60,
                cols < 60,
        ;
        self.game = GameOfLife::generate_game(rows, cols, chance, CHANCE_STEPS);
    }

    /// Handles one event and reports whether the user asked to leave.
    ///
    /// `Frame` reads the clock and lets the timer act on the time that has
    /// passed since the last automatic step, as `tick` does; if the grid
    /// advanced, the wait starts anew. The buttons `GenerateRandom` and
    /// `GenerateBlank` replace the grid by one of a random size.
    pub fn update(&mut self, event: UiEvent) -> (go_back: bool)
        requires
            old(self)@.game.wf(),
        ensures
            go_back == (event is Back),
            final(self)@.game.wf(),
            old(self)@.leads_to(event, final(self)@),
    {
        match event {
            UiEvent::Frame => {
                let waited = self.last_update.elapsed();
                if self.tick(waited.as_nanos()) {
                    self.last_update = Instant::now();
                }
                false
            },
            UiEvent::Back => true,
            UiEvent::Play => {
                self.running = true;
                false
            },
            UiEvent::Stop => {
                self.running = false;
                false
            },
            UiEvent::Next => {
                self.game.update();
                false
            },
            UiEvent::GenerateRandom => {
                self.regenerate(false);
                false
            },
            UiEvent::GenerateBlank => {
                self.regenerate(true);
                false
            },
            UiEvent::Click { row, col } => {
                self.click(row, col);
                false
            },
        }
    }
}

} // verus!
