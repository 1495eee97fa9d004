use konnektoren_game::app_state::{AppState, FlowVariant};
use konnektoren_game::challenge::{
    ChallengeConfig, ChallengeDataset, GamePath, MultipleChoice, MultipleChoiceOption, Question,
};
use konnektoren_game::commands::{Command, CreateChallengeCommand, SolveOptionCommand};
use konnektoren_game::dispatch::Core;
use konnektoren_game::error::CoreError;
use konnektoren_game::game_state::SessionState;

fn path() -> GamePath {
    GamePath {
        challenges: vec![ChallengeConfig {
            id: "konnektoren".to_string(),
            name: "Konnektoren".to_string(),
            description: "Pick the connective".to_string(),
            position: Some((1, 2)),
        }],
    }
}

fn dataset() -> ChallengeDataset {
    ChallengeDataset::MultipleChoice(MultipleChoice {
        questions: vec![
            Question { question: "first".to_string(), help: "h".to_string(), correct_option_id: 7 },
            Question {
                question: "second".to_string(),
                help: "h".to_string(),
                correct_option_id: 8,
            },
        ],
        options: vec![
            MultipleChoiceOption { id: 7, name: "weil".to_string() },
            MultipleChoiceOption { id: 8, name: "dass".to_string() },
        ],
    })
}

fn create(id: &str) -> Command {
    Command::CreateChallenge(CreateChallengeCommand { challenge_id: id.to_string() }, dataset())
}

fn solve(option_index: usize) -> Command {
    Command::SolveOption(SolveOptionCommand { option_index })
}

fn on_the_map() -> Core {
    let mut core = Core::new(FlowVariant::Full, path());
    assert_eq!(core.dispatch(Command::AdvanceSplash), Ok(AppState::Slides));
    assert_eq!(core.dispatch(Command::SkipSlides), Ok(AppState::ChallengeMap));
    core
}

#[test]
fn the_core_starts_on_the_splash_screen() {
    let core = Core::new(FlowVariant::Minimal, path());
    assert_eq!(core.app_state(), AppState::Splash);
    assert_eq!(core.variant(), FlowVariant::Minimal);
    assert_eq!(core.game_state().game_path(), &path());
    assert_eq!(core.game_state().current_task_index(), 0);
}

#[test]
fn the_full_flow_runs_from_splash_to_game() {
    let mut core = on_the_map();
    assert_eq!(core.dispatch(create("konnektoren")), Ok(AppState::Game));
    assert_eq!(core.app_state(), AppState::Game);
    assert_eq!(core.game_state().session_state(), SessionState::AwaitingAnswer(0));
    assert_eq!(core.dispatch(solve(0)), Ok(AppState::Game));
    assert_eq!(core.dispatch(solve(1)), Ok(AppState::Game));
    assert_eq!(core.game_state().session_state(), SessionState::Completed);
    assert_eq!(core.dispatch(solve(1)), Err(CoreError::ChallengeAlreadyCompleted));
    assert_eq!(core.app_state(), AppState::Game);
}

#[test]
fn the_minimal_flow_skips_slides_and_map() {
    let mut core = Core::new(FlowVariant::Minimal, path());
    assert_eq!(core.dispatch(Command::AdvanceSplash), Ok(AppState::Game));
    assert_eq!(core.dispatch(Command::AdvanceSplash), Ok(AppState::Game));
    assert_eq!(core.dispatch(Command::SkipSlides), Ok(AppState::Game));
}

#[test]
fn an_unknown_challenge_keeps_the_map_on_screen() {
    let mut core = on_the_map();
    let before = Core::new(FlowVariant::Full, path());
    assert_eq!(core.dispatch(create("unknown-id")), Err(CoreError::ChallengeNotFound));
    assert_eq!(core.app_state(), AppState::ChallengeMap);
    assert_eq!(core.game_state(), before.game_state());
}

#[test]
fn a_bad_option_index_leaves_the_result_as_it_was() {
    let mut core = on_the_map();
    assert_eq!(core.dispatch(create("konnektoren")), Ok(AppState::Game));
    assert_eq!(core.dispatch(solve(1)), Ok(AppState::Game));
    let length = core.game_state().challenge().challenge_result.len();
    assert_eq!(core.dispatch(solve(99)), Err(CoreError::InvalidOptionIndex));
    assert_eq!(core.game_state().challenge().challenge_result.len(), length);
    assert_eq!(length, 1);
    assert_eq!(core.app_state(), AppState::Game);
}

#[test]
fn flow_commands_off_their_screen_change_nothing() {
    let mut core = on_the_map();
    assert_eq!(core.dispatch(Command::AdvanceSplash), Ok(AppState::ChallengeMap));
    assert_eq!(core.dispatch(Command::SkipSlides), Ok(AppState::ChallengeMap));
    let mut core = Core::new(FlowVariant::Full, path());
    assert_eq!(core.dispatch(Command::SkipSlides), Ok(AppState::Splash));
}

#[test]
fn a_challenge_created_off_the_map_keeps_the_screen() {
    let mut core = Core::new(FlowVariant::Full, path());
    assert_eq!(core.dispatch(create("konnektoren")), Ok(AppState::Splash));
    assert_eq!(core.game_state().challenge().challenge_type, dataset());
    assert_eq!(core.game_state().session_state(), SessionState::AwaitingAnswer(0));
}

#[test]
fn every_error_has_its_message() {
    assert_eq!(CoreError::InvalidOptionIndex.message(), "option index out of range");
    assert_eq!(CoreError::ChallengeAlreadyCompleted.message(), "challenge already completed");
    assert_eq!(CoreError::ChallengeNotFound.message(), "challenge not found");
    assert_eq!(CoreError::EmptyQuestionSet.message(), "challenge has no questions");
    assert_eq!(CoreError::DegenerateLayout.message(), "map bounds have zero span");
}
