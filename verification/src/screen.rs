//! The screens of the application and the moves between them.

use vstd::prelude::*;
use crate::app::AppState;
use crate::app::GameOfLifeApp;
use crate::app::UiEvent;

verus! {

/// What the application shows.
pub enum AppScreen {
    /// The menu from which a simulation is launched.
    StartMenu,
    /// A simulation.
    GameOfLife(GameOfLifeApp),
}

/// What the user interface reports to the application.
#[derive(Clone, Copy, Debug)]
pub enum ScreenEvent {
    /// The user picked the simulation in the start menu.
    Launch,
    /// An event of the simulation screen.
    Game(UiEvent),
}

/// The application: one screen at a time.
pub struct RandomApp {
    screen: AppScreen,
}

impl RandomApp {
    /// The screen that is shown.
    pub closed spec fn shown(&self) -> AppScreen {
        self.screen
    }

    /// Whether the simulation screen is shown.
    pub open spec fn in_game(&self) -> bool {
        self.shown() is GameOfLife
    }

    /// The simulation that is shown, where one is.
    pub open spec fn simulation(&self) -> AppState
        recommends
            self.in_game(),
    {
        self.shown()->GameOfLife_0@
    }

    /// A simulation that is shown has a well-formed grid.
    pub open spec fn wf(&self) -> bool {
        self.in_game() ==> self.simulation().game.wf()
    }

    /// Starts in the start menu.
    pub fn new() -> (app: Self)
        ensures
            !app.in_game(),
            app.wf(),
    {
        RandomApp { screen: AppScreen::StartMenu }
    }

    /// The screen that is shown.
    pub fn screen(&self) -> (screen: &AppScreen)
        ensures
            *screen == self.shown(),
    {
        &self.screen
    }

    /// Handles one event. In the start menu, `Launch` opens a fresh
    /// simulation and nothing else has an effect. In the simulation screen,
    /// the events of the simulation are handed to it, and the application
    /// returns to the start menu when the simulation reports that the user
    /// asked to leave.
    pub fn update(&mut self, event: ScreenEvent)
        requires
            old(self).wf(),
        ensures
            final(self).wf(),
            !old(self).in_game() ==> match event {
                ScreenEvent::Launch => {
                    &&& final(self).in_game()
                    &&& final(self).simulation().game.rows == 30
                    &&& final(self).simulation().game.cols == 40
                    &&& !final(self).simulation().running
                },
                ScreenEvent::Game(_) => !final(self).in_game(),
            },
            old(self).in_game() ==> match event {
                ScreenEvent::Launch => final(self).shown() == old(self).shown(),
                ScreenEvent::Game(UiEvent::Back) => !final(self).in_game(),
                ScreenEvent::Game(inner) => {
                    &&& final(self).in_game()
                    &&& old(self).simulation().leads_to(inner, final(self).simulation())
                },
            },
    {
        match &mut self.screen {
            AppScreen::StartMenu => {
                if let ScreenEvent::Launch = event {
                    self.screen = AppScreen::GameOfLife(GameOfLifeApp::new());
                }
            },
            AppScreen::GameOfLife(game) => {
                if let ScreenEvent::Game(inner) = event {
                    if game.update(inner) {
                        self.screen = AppScreen::StartMenu;
                    }
                }
            },
        }
    }
}

} // verus!
