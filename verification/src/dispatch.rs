//! The entry point of the host: one command per step, applied to the screen
//! flow and to the state of the game.

use crate::app_state::{
    is_flow_edge, next_state, transition, AppEvent, AppState, FlowVariant,
};
use crate::challenge::GamePath;
use crate::commands::{Command, CommandView};
use crate::error::CoreError;
use crate::game_state::{GameState, GameStateView};
use vstd::prelude::*;

verus! {

/// The mathematical content of a [`Core`].
pub struct CoreView {
    pub variant: FlowVariant,
    pub app_state: AppState,
    pub game_state: GameStateView,
}

impl CoreView {
    /// The core after the given event has reached the flow.
    pub open spec fn after_event(self, event: AppEvent) -> CoreView {
        CoreView {
            variant: self.variant,
            app_state: next_state(self.variant, self.app_state, event),
            game_state: self.game_state,
        }
    }

    /// The core with another game state, on the same screen.
    pub open spec fn with_game_state(self, game_state: GameStateView) -> CoreView {
        CoreView { variant: self.variant, app_state: self.app_state, game_state }
    }

    /// What one command leads to: the core after it, or the reason why it
    /// was refused. An answer changes the game state and leaves the screen
    /// as it is; a created challenge changes the game state and then tells
    /// the flow that a challenge was selected; the two flow commands only
    /// tell the flow what happened.
    pub open spec fn dispatch(self, command: CommandView) -> Result<CoreView, CoreError> {
        match command {
            CommandView::SolveOption(option_index) => match self.game_state.solve_option(
                option_index,
            ) {
                Ok(next) => Ok(self.with_game_state(next)),
                Err(error) => Err(error),
            },
            CommandView::CreateChallenge(challenge_id, dataset) => {
                match self.game_state.create_challenge(challenge_id, dataset) {
                    Ok(next) => Ok(
                        self.with_game_state(next).after_event(AppEvent::ChallengeSelected),
                    ),
                    Err(error) => Err(error),
                }
            },
            CommandView::AdvanceSplash => Ok(self.after_event(AppEvent::SplashTimerExpired)),
            CommandView::SkipSlides => Ok(self.after_event(AppEvent::SlideSkipRequested)),
        }
    }
}

/// The core of the application: the screen that is shown and the state of
/// the game. The host hands it one command per step.
#[derive(Debug, PartialEq, Eq)]
pub struct Core {
    variant: FlowVariant,
    app_state: AppState,
    game_state: GameState,
}

impl View for Core {
    type V = CoreView;

    closed spec fn view(&self) -> CoreView {
        CoreView {
            variant: self.variant,
            app_state: self.app_state,
            game_state: self.game_state@,
        }
    }
}

impl Core {
    /// The core at the start of the application: on the splash screen, with
    /// the given path and no challenge picked.
    pub fn new(variant: FlowVariant, game_path: GamePath) -> (core: Core)
        ensures
            core@ == (CoreView {
                variant,
                app_state: AppState::Splash,
                game_state: GameStateView::initial(game_path@),
            }),
    {
        Core { variant, app_state: AppState::Splash, game_state: GameState::new(game_path) }
    }

    /// The screen that is shown.
    pub fn app_state(&self) -> (state: AppState)
        ensures
            state == self@.app_state,
    {
        self.app_state
    }

    /// The variant of the flow that the core follows.
    pub fn variant(&self) -> (variant: FlowVariant)
        ensures
            variant == self@.variant,
    {
        self.variant
    }

    /// The state of the game.
    pub fn game_state(&self) -> (state: &GameState)
        ensures
            state@ == self@.game_state,
    {
        &self.game_state
    }

    /// Carries out one command. On success the screen that is shown after
    /// it is returned; on failure nothing has changed.
    pub fn dispatch(&mut self, command: Command) -> (outcome: Result<AppState, CoreError>)
        ensures
            match old(self)@.dispatch(command@) {
                Ok(next) => outcome == Ok::<AppState, CoreError>(next.app_state) && final(self)@
                    == next,
                Err(error) => outcome == Err::<AppState, CoreError>(error) && final(self)@ == old(
                    self,
                )@,
            },
    {
        match command {
            Command::SolveOption(command) => {
                match command.execute(&mut self.game_state) {
                    Ok(()) => Ok(self.app_state),
                    Err(error) => Err(error),
                }
            },
            Command::CreateChallenge(command, dataset) => {
                match command.execute(&mut self.game_state, dataset) {
                    Ok(()) => {
                        self.app_state = transition(
                            self.variant,
                            self.app_state,
                            AppEvent::ChallengeSelected,
                        );
                        Ok(self.app_state)
                    },
                    Err(error) => Err(error),
                }
            },
            Command::AdvanceSplash => {
                self.app_state = transition(
                    self.variant,
                    self.app_state,
                    AppEvent::SplashTimerExpired,
                );
                Ok(self.app_state)
            },
            Command::SkipSlides => {
                self.app_state = transition(
                    self.variant,
                    self.app_state,
                    AppEvent::SlideSkipRequested,
                );
                Ok(self.app_state)
            },
        }
    }
}

/// Only an answer or a picked challenge can be refused, and a picked
/// challenge only because the path does not hold it. A command that is
/// accepted keeps the variant of the flow and moves the screen along an
/// edge of the flow or leaves it where it is; a challenge picked on the map
/// leads to the game screen.
pub proof fn lemma_dispatch_follows_flow(core: CoreView, command: CommandView)
    ensures
        match core.dispatch(command) {
            Ok(next) => {
                &&& next.variant == core.variant
                &&& next.app_state == core.app_state || is_flow_edge(
                    core.variant,
                    core.app_state,
                    next.app_state,
                )
                &&& command is SolveOption ==> next.app_state == core.app_state
                &&& command is CreateChallenge && core.app_state == AppState::ChallengeMap
                    ==> next.app_state == AppState::Game
                &&& !(command is SolveOption || command is CreateChallenge) ==> next.game_state
                    == core.game_state
            },
            Err(error) => {
                &&& command is SolveOption || command is CreateChallenge
                &&& command is CreateChallenge ==> error == CoreError::ChallengeNotFound
                &&& command is SolveOption ==> error == CoreError::InvalidOptionIndex || error
                    == CoreError::ChallengeAlreadyCompleted
            },
        },
{
}

} // verus!
