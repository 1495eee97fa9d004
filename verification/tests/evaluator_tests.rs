use konnektoren_game::challenge::{
    ChallengeDataset, ChallengeResult, MultipleChoice, MultipleChoiceOption, Question,
    SubmittedOption,
};
use konnektoren_game::error::CoreError;
use konnektoren_game::evaluator::{
    evaluate, last_outcome_color, score, Evaluated, OutcomeColor,
};

const A: usize = 10;
const B: usize = 20;
const X: usize = 30;

fn question(text: &str, correct_option_id: usize) -> Question {
    Question { question: text.to_string(), help: format!("help for {}", text), correct_option_id }
}

fn option(id: usize, name: &str) -> MultipleChoiceOption {
    MultipleChoiceOption { id, name: name.to_string() }
}

fn dataset(correct_ids: &[usize]) -> ChallengeDataset {
    let mut questions = Vec::new();
    for (i, id) in correct_ids.iter().enumerate() {
        questions.push(question(&format!("question {}", i), *id));
    }
    ChallengeDataset::MultipleChoice(MultipleChoice {
        questions,
        options: vec![option(A, "a"), option(B, "b"), option(X, "x")],
    })
}

fn result(ids: &[usize]) -> ChallengeResult {
    ChallengeResult::MultipleChoice(ids.iter().map(|id| SubmittedOption { id: *id }).collect())
}

fn verdicts(evaluated: &[Evaluated]) -> Vec<bool> {
    evaluated.iter().map(|entry| entry.correct).collect()
}

fn percent_as_float(dataset: &ChallengeDataset, result: &ChallengeResult) -> f64 {
    let score = score(dataset, result).unwrap();
    100.0 * score.correct() as f64 / score.total() as f64
}

#[test]
fn one_right_and_one_wrong_answer_score_fifty() {
    let dataset = dataset(&[A, B]);
    let result = result(&[A, X]);
    let evaluated = evaluate(&dataset, &result);
    assert_eq!(verdicts(&evaluated), vec![true, false]);
    assert_eq!(evaluated[0].question_text, "question 0");
    assert_eq!(evaluated[1].question_text, "question 1");
    assert_eq!(percent_as_float(&dataset, &result), 50.0);
    let score = score(&dataset, &result).unwrap();
    assert_eq!(score.correct(), 1);
    assert_eq!(score.total(), 2);
    assert_eq!(score.percent(), 50);
}

#[test]
fn evaluate_returns_one_entry_for_each_answer() {
    let correct = [A, B, X, A, B];
    let dataset = dataset(&correct);
    let answers = [A, A, X, B, B];
    for k in 0..=answers.len() {
        let evaluated = evaluate(&dataset, &result(&answers[..k]));
        assert_eq!(evaluated.len(), k);
        for (i, entry) in evaluated.iter().enumerate() {
            assert_eq!(entry.correct, correct[i] == answers[i]);
            assert_eq!(entry.question_text, format!("question {}", i));
        }
    }
}

#[test]
fn answers_beyond_the_last_question_are_not_evaluated() {
    let dataset = dataset(&[A, B]);
    let evaluated = evaluate(&dataset, &result(&[A, B, X, X]));
    assert_eq!(verdicts(&evaluated), vec![true, true]);
    assert_eq!(score(&dataset, &result(&[A, B, X, X])).unwrap().percent(), 100);
}

#[test]
fn evaluating_without_answers_gives_nothing() {
    assert_eq!(evaluate(&dataset(&[A, B]), &result(&[])), Vec::<Evaluated>::new());
    assert_eq!(evaluate(&dataset(&[]), &result(&[A])), Vec::<Evaluated>::new());
}

#[test]
fn score_never_falls_and_stays_within_bounds() {
    let correct = [A, B, X, A, B, X, A];
    let dataset = dataset(&correct);
    let answers = [A, X, X, A, A, X, B];
    let mut last_percent = 0;
    let mut last_correct = 0;
    for k in 0..=answers.len() {
        let score = score(&dataset, &result(&answers[..k])).unwrap();
        assert!(score.percent() <= 100);
        assert!(score.percent() >= last_percent);
        assert!(score.correct() >= last_correct);
        assert!(score.correct() <= score.total());
        assert_eq!(score.total(), correct.len());
        if k > 0 && answers[k - 1] == correct[k - 1] {
            assert_eq!(score.correct(), last_correct + 1);
        }
        let float = percent_as_float(&dataset, &result(&answers[..k]));
        assert!((0.0..=100.0).contains(&float));
        last_percent = score.percent();
        last_correct = score.correct();
    }
    assert_eq!(last_correct, 4);
    assert_eq!(last_percent, 57);
}

#[test]
fn score_counts_over_all_questions_not_over_the_answered_ones() {
    let dataset = dataset(&[A, B, X, A]);
    let score = score(&dataset, &result(&[A])).unwrap();
    assert_eq!((score.correct(), score.total(), score.percent()), (1, 4, 25));
}

#[test]
fn score_rounds_down_to_whole_percent() {
    let dataset = dataset(&[A, B, X]);
    assert_eq!(score(&dataset, &result(&[A])).unwrap().percent(), 33);
    assert_eq!(score(&dataset, &result(&[A, B])).unwrap().percent(), 66);
    assert_eq!(score(&dataset, &result(&[A, B, X])).unwrap().percent(), 100);
    assert_eq!(score(&dataset, &result(&[])).unwrap().percent(), 0);
}

#[test]
fn a_dataset_without_questions_has_no_score() {
    assert_eq!(score(&dataset(&[]), &result(&[])), Err(CoreError::EmptyQuestionSet));
    assert_eq!(score(&dataset(&[]), &result(&[A])), Err(CoreError::EmptyQuestionSet));
    assert_eq!(
        score(&ChallengeDataset::empty(), &ChallengeResult::empty()),
        Err(CoreError::EmptyQuestionSet)
    );
}

#[test]
fn the_last_verdict_picks_the_colour() {
    let dataset = dataset(&[A, B]);
    assert_eq!(last_outcome_color(&evaluate(&dataset, &result(&[]))), OutcomeColor::Neutral);
    assert_eq!(last_outcome_color(&evaluate(&dataset, &result(&[A]))), OutcomeColor::Correct);
    assert_eq!(last_outcome_color(&evaluate(&dataset, &result(&[A, X]))), OutcomeColor::Incorrect);
    assert_eq!(last_outcome_color(&evaluate(&dataset, &result(&[X, B]))), OutcomeColor::Correct);
}

#[test]
fn outcome_colours_are_green_red_and_dark_grey() {
    assert_eq!(OutcomeColor::Correct.rgb_tenths(), (0, 10, 0));
    assert_eq!(OutcomeColor::Incorrect.rgb_tenths(), (10, 0, 0));
    assert_eq!(OutcomeColor::Neutral.rgb_tenths(), (1, 1, 1));
}
