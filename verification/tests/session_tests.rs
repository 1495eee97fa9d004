use konnektoren_game::challenge::{
    ChallengeConfig, ChallengeDataset, ChallengeInstance, ChallengeResult, GamePath,
    MultipleChoice, MultipleChoiceOption, Question, SubmittedOption,
};
use konnektoren_game::commands::{CreateChallengeCommand, SolveOptionCommand};
use konnektoren_game::error::CoreError;
use konnektoren_game::game_state::{GameState, SessionState};

fn config(id: &str, position: Option<(i32, i32)>) -> ChallengeConfig {
    ChallengeConfig {
        id: id.to_string(),
        name: format!("name of {}", id),
        description: format!("description of {}", id),
        position,
    }
}

fn path() -> GamePath {
    GamePath {
        challenges: vec![
            config("articles", Some((0, 0))),
            config("verbs", Some((2, 1))),
            config("articles", Some((5, 5))),
        ],
    }
}

fn dataset(questions: usize, options: usize) -> ChallengeDataset {
    ChallengeDataset::MultipleChoice(MultipleChoice {
        questions: (0..questions)
            .map(|i| Question {
                question: format!("question {}", i),
                help: format!("help {}", i),
                correct_option_id: 100 + i % options.max(1),
            })
            .collect(),
        options: (0..options)
            .map(|i| MultipleChoiceOption { id: 100 + i, name: format!("option {}", i) })
            .collect(),
    })
}

fn started(questions: usize, options: usize) -> GameState {
    let mut state = GameState::new(path());
    assert_eq!(state.create_challenge(&"verbs".to_string(), dataset(questions, options)), Ok(()));
    state
}

fn submitted_ids(state: &GameState) -> Vec<usize> {
    let result = &state.challenge().challenge_result;
    (0..result.len()).map(|i| result.get(i).unwrap().id).collect()
}

#[test]
fn a_new_state_has_an_empty_challenge() {
    let state = GameState::new(path());
    assert_eq!(state.game_path(), &path());
    assert_eq!(state.challenge(), &ChallengeInstance::empty());
    assert_eq!(state.current_task_index(), 0);
    assert_eq!(state.session_state(), SessionState::Completed);
    assert!(state.current_question().is_none());
    let state = GameState::default();
    assert_eq!(state.game_path(), &GamePath::empty());
    assert_eq!(state.challenge().challenge_config, ChallengeConfig::empty());
    assert_eq!(state.challenge().challenge_type, ChallengeDataset::empty());
    assert_eq!(state.challenge().challenge_result, ChallengeResult::empty());
}

#[test]
fn answering_every_question_completes_the_challenge() {
    for questions in 0..6 {
        for options in 1..4 {
            for start in 0..options {
                let mut state = started(questions, options);
                let mut expected = Vec::new();
                for k in 0..questions {
                    assert_eq!(state.session_state(), SessionState::AwaitingAnswer(k));
                    assert_eq!(state.current_task_index(), k);
                    assert_eq!(
                        state.current_question().unwrap().question,
                        format!("question {}", k)
                    );
                    let option_index = (start + k) % options;
                    assert_eq!(state.solve_option(option_index), Ok(()));
                    expected.push(100 + option_index);
                }
                assert_eq!(state.session_state(), SessionState::Completed);
                assert_eq!(state.current_task_index(), questions);
                assert_eq!(submitted_ids(&state), expected);
                assert!(state.current_question().is_none());
            }
        }
    }
}

#[test]
fn an_answer_after_the_last_question_is_refused() {
    let mut state = started(2, 2);
    assert_eq!(state.solve_option(0), Ok(()));
    assert_eq!(state.solve_option(1), Ok(()));
    let before = submitted_ids(&state);
    assert_eq!(state.solve_option(0), Err(CoreError::ChallengeAlreadyCompleted));
    assert_eq!(state.solve_option(1), Err(CoreError::ChallengeAlreadyCompleted));
    assert_eq!(submitted_ids(&state), before);
    assert_eq!(state.current_task_index(), 2);
    assert_eq!(state.session_state(), SessionState::Completed);
}

#[test]
fn an_option_index_out_of_range_is_refused() {
    let mut state = started(3, 2);
    assert_eq!(state.solve_option(0), Ok(()));
    assert_eq!(state.solve_option(99), Err(CoreError::InvalidOptionIndex));
    assert_eq!(state.solve_option(2), Err(CoreError::InvalidOptionIndex));
    assert_eq!(state.solve_option(usize::MAX), Err(CoreError::InvalidOptionIndex));
    assert_eq!(state.challenge().challenge_result.len(), 1);
    assert_eq!(state.current_task_index(), 1);
    assert_eq!(state.session_state(), SessionState::AwaitingAnswer(1));
    assert_eq!(state.solve_option(1), Ok(()));
    assert_eq!(submitted_ids(&state), vec![100, 101]);
}

#[test]
fn an_option_index_out_of_range_is_refused_before_completion_is_looked_at() {
    let mut state = started(1, 2);
    assert_eq!(state.solve_option(1), Ok(()));
    assert_eq!(state.solve_option(99), Err(CoreError::InvalidOptionIndex));
    assert_eq!(state.solve_option(0), Err(CoreError::ChallengeAlreadyCompleted));
    let mut state = GameState::default();
    assert_eq!(state.solve_option(0), Err(CoreError::InvalidOptionIndex));
}

#[test]
fn the_recorded_answer_is_the_id_of_the_option_not_its_index() {
    let mut state = started(1, 3);
    assert_eq!(state.solve_option(2), Ok(()));
    assert_eq!(state.challenge().challenge_result.get(0), Some(SubmittedOption { id: 102 }));
    assert_eq!(state.challenge().challenge_result.get(1), None);
}

#[test]
fn solve_option_command_answers_the_current_question() {
    let mut state = started(2, 2);
    assert_eq!(SolveOptionCommand { option_index: 1 }.execute(&mut state), Ok(()));
    assert_eq!(
        SolveOptionCommand { option_index: 99 }.execute(&mut state),
        Err(CoreError::InvalidOptionIndex)
    );
    assert_eq!(submitted_ids(&state), vec![101]);
    assert_eq!(state.current_task_index(), 1);
}

#[test]
fn creating_a_challenge_starts_a_fresh_attempt() {
    let mut state = started(2, 2);
    assert_eq!(state.solve_option(0), Ok(()));
    assert_eq!(state.create_challenge(&"articles".to_string(), dataset(4, 3)), Ok(()));
    assert_eq!(state.challenge().challenge_config, config("articles", Some((0, 0))));
    assert_eq!(state.challenge().challenge_type, dataset(4, 3));
    assert_eq!(state.challenge().challenge_result, ChallengeResult::empty());
    assert_eq!(state.current_task_index(), 0);
    assert_eq!(state.session_state(), SessionState::AwaitingAnswer(0));
    assert_eq!(state.game_path(), &path());
}

#[test]
fn an_unknown_challenge_leaves_the_state_as_it_was() {
    let mut state = started(2, 2);
    assert_eq!(state.solve_option(1), Ok(()));
    let command = CreateChallengeCommand { challenge_id: "unknown-id".to_string() };
    assert_eq!(command.execute(&mut state, dataset(4, 3)), Err(CoreError::ChallengeNotFound));
    assert_eq!(state.challenge().challenge_config, config("verbs", Some((2, 1))));
    assert_eq!(state.challenge().challenge_type, dataset(2, 2));
    assert_eq!(submitted_ids(&state), vec![101]);
    assert_eq!(state.current_task_index(), 1);
    let mut empty = GameState::default();
    assert_eq!(
        empty.create_challenge(&"articles".to_string(), dataset(1, 1)),
        Err(CoreError::ChallengeNotFound)
    );
    assert_eq!(empty, GameState::default());
}

#[test]
fn the_path_is_searched_from_its_start() {
    assert_eq!(path().find(&"articles".to_string()), Some(0));
    assert_eq!(path().find(&"verbs".to_string()), Some(1));
    assert_eq!(path().find(&"Verbs".to_string()), None);
    assert_eq!(path().find(&"".to_string()), None);
    assert_eq!(GamePath::empty().find(&"verbs".to_string()), None);
}

#[test]
fn the_current_challenge_is_evaluated_and_scored() {
    let mut state = started(4, 2);
    let (evaluated, score) = state.evaluate_current_challenge().unwrap();
    assert!(evaluated.is_empty());
    assert_eq!((score.correct(), score.total(), score.percent()), (0, 4, 0));
    assert_eq!(state.solve_option(0), Ok(()));
    assert_eq!(state.solve_option(0), Ok(()));
    assert_eq!(state.solve_option(0), Ok(()));
    let (evaluated, score) = state.evaluate_current_challenge().unwrap();
    let verdicts: Vec<bool> = evaluated.iter().map(|entry| entry.correct).collect();
    assert_eq!(verdicts, vec![true, false, true]);
    assert_eq!((score.correct(), score.total(), score.percent()), (2, 4, 50));
}

#[test]
fn a_challenge_without_questions_cannot_be_scored() {
    let state = GameState::default();
    assert_eq!(state.evaluate_current_challenge(), Err(CoreError::EmptyQuestionSet));
    let state = started(0, 2);
    assert_eq!(state.evaluate_current_challenge(), Err(CoreError::EmptyQuestionSet));
}

#[test]
fn datasets_know_whether_their_answers_exist() {
    assert!(dataset(3, 2).is_well_formed());
    assert!(ChallengeDataset::empty().is_well_formed());
    assert!(dataset(0, 0).is_well_formed());
    assert!(!dataset(1, 0).is_well_formed());
    let broken = ChallengeDataset::MultipleChoice(MultipleChoice {
        questions: vec![
            Question { question: "q".to_string(), help: "h".to_string(), correct_option_id: 1 },
            Question { question: "r".to_string(), help: "h".to_string(), correct_option_id: 3 },
        ],
        options: vec![
            MultipleChoiceOption { id: 1, name: "one".to_string() },
            MultipleChoiceOption { id: 2, name: "two".to_string() },
        ],
    });
    assert!(!broken.is_well_formed());
    assert_eq!(broken.question_count(), 2);
    assert_eq!(broken.option_count(), 2);
    assert_eq!(broken.question(1).unwrap().question, "r");
    assert!(broken.question(2).is_none());
    assert_eq!(broken.option(0).unwrap().name, "one");
    assert!(broken.option(2).is_none());
    match broken {
        ChallengeDataset::MultipleChoice(data) => {
            assert!(data.has_option(1));
            assert!(data.has_option(2));
            assert!(!data.has_option(3));
            assert!(!data.is_well_formed());
        }
    }
}

#[test]
fn a_challenge_without_position_sits_at_the_origin() {
    assert_eq!(config("a", None).node(), (0, 0));
    assert_eq!(config("a", Some((-3, 7))).node(), (-3, 7));
    assert_eq!(config("a", Some((-3, 7))).clone(), config("a", Some((-3, 7))));
}

#[test]
fn a_checked_dataset_is_made_of_answerable_questions_only() {
    let question = |id: usize| Question {
        question: format!("asks for {}", id),
        help: String::new(),
        correct_option_id: id,
    };
    let option = |id: usize| MultipleChoiceOption { id, name: format!("option {}", id) };
    let made = ChallengeDataset::multiple_choice(
        vec![question(2), question(1), question(2)],
        vec![option(1), option(2)],
    );
    assert_eq!(
        made,
        Some(ChallengeDataset::MultipleChoice(MultipleChoice {
            questions: vec![question(2), question(1), question(2)],
            options: vec![option(1), option(2)],
        }))
    );
    assert_eq!(
        ChallengeDataset::multiple_choice(
            vec![question(2), question(3)],
            vec![option(1), option(2)]
        ),
        None
    );
    assert_eq!(ChallengeDataset::multiple_choice(vec![question(0)], vec![]), None);
    assert_eq!(
        ChallengeDataset::multiple_choice(vec![], vec![]),
        Some(ChallengeDataset::empty())
    );
}

#[test]
fn copies_are_equal_to_what_they_were_made_of() {
    let question =
        Question { question: "q".to_string(), help: "h".to_string(), correct_option_id: 4 };
    assert_eq!(question.clone(), question);
    let option = MultipleChoiceOption { id: 4, name: "four".to_string() };
    assert_eq!(option.clone(), option);
    let config = config("verbs", None);
    assert_eq!(config.clone(), config);
}
