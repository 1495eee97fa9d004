//! The commands by which the host changes the state of the game.

use crate::challenge::{ChallengeDataset, ChallengeDatasetView};
use crate::error::CoreError;
use crate::game_state::GameState;
use vstd::prelude::*;

verus! {

/// The user picks one of the options as the answer to the current question.
#[derive(Clone, Copy, Debug, PartialEq, Eq, Structural)]
pub struct SolveOptionCommand {
    /// The position of the picked option in the option list of the dataset.
    pub option_index: usize,
}

impl SolveOptionCommand {
    /// Applies the answer to the game state. On failure the state stays as
    /// it was.
    pub fn execute(&self, state: &mut GameState) -> (outcome: Result<(), CoreError>)
        ensures
            match old(state)@.solve_option(self.option_index) {
                Ok(next) => outcome == Ok::<(), CoreError>(()) && final(state)@ == next,
                Err(error) => outcome == Err::<(), CoreError>(error) && final(state)@ == old(
                    state,
                )@,
            },
            final(state)@.well_formed(),
    {
        state.solve_option(self.option_index)
    }
}

/// The user picks a challenge on the map.
#[derive(Debug, PartialEq, Eq)]
pub struct CreateChallengeCommand {
    pub challenge_id: String,
}

impl View for CreateChallengeCommand {
    type V = Seq<char>;

    open spec fn view(&self) -> Seq<char> {
        self.challenge_id@
    }
}

impl CreateChallengeCommand {
    /// Starts a fresh attempt at the picked challenge, with the dataset
    /// that the host has loaded for it. On failure the state stays as it
    /// was.
    pub fn execute(&self, state: &mut GameState, dataset: ChallengeDataset) -> (outcome: Result<
        (),
        CoreError,
    >)
        ensures
            match old(state)@.create_challenge(self@, dataset@) {
                Ok(next) => outcome == Ok::<(), CoreError>(()) && final(state)@ == next,
                Err(error) => outcome == Err::<(), CoreError>(error) && final(state)@ == old(
                    state,
                )@,
            },
            final(state)@.well_formed(),
    {
        state.create_challenge(&self.challenge_id, dataset)
    }
}

/// Everything that the host can ask the core to do in one step.
#[derive(Debug, PartialEq, Eq)]
pub enum Command {
    /// Answer the current question.
    SolveOption(SolveOptionCommand),
    /// Start the picked challenge with the dataset loaded for it.
    CreateChallenge(CreateChallengeCommand, ChallengeDataset),
    /// The splash delay has run out.
    AdvanceSplash,
    /// Leave the slideshow.
    SkipSlides,
}

/// The mathematical content of a [`Command`].
pub enum CommandView {
    SolveOption(usize),
    CreateChallenge(Seq<char>, ChallengeDatasetView),
    AdvanceSplash,
    SkipSlides,
}

impl View for Command {
    type V = CommandView;

    open spec fn view(&self) -> CommandView {
        match self {
            Command::SolveOption(command) => CommandView::SolveOption(command.option_index),
            Command::CreateChallenge(command, dataset) => CommandView::CreateChallenge(
                command@,
                dataset@,
            ),
            Command::AdvanceSplash => CommandView::AdvanceSplash,
            Command::SkipSlides => CommandView::SkipSlides,
        }
    }
}

} // verus!
