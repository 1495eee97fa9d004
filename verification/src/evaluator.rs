//! Judging the answers given to a challenge, and scoring them.

use crate::challenge::{
    views, ChallengeDataset, ChallengeDatasetView, ChallengeResult, ChallengeResultView,
    SubmittedOption,
};
use crate::error::CoreError;
use vstd::prelude::*;

verus! {

/// The verdict on one answered question.
#[derive(Debug, PartialEq, Eq)]
pub struct Evaluated {
    pub question_text: String,
    pub correct: bool,
}

/// The mathematical content of an [`Evaluated`] entry.
pub struct EvaluatedView {
    pub question_text: Seq<char>,
    pub correct: bool,
}

impl View for Evaluated {
    type V = EvaluatedView;

    open spec fn view(&self) -> EvaluatedView {
        EvaluatedView { question_text: self.question_text@, correct: self.correct }
    }
}

/// How many questions have an answer: the answers beyond the last question
/// count for nothing.
pub open spec fn answered_count(dataset: ChallengeDatasetView, result: ChallengeResultView) -> nat {
    if result.submitted().len() <= dataset.questions().len() {
        result.submitted().len()
    } else {
        dataset.questions().len()
    }
}

/// The verdicts on the answered questions, in the order of the questions:
/// question `i` is paired with answer `i`, and an answer is correct when it
/// names the option that the question asks for.
pub open spec fn spec_evaluate(
    dataset: ChallengeDatasetView,
    result: ChallengeResultView,
) -> Seq<EvaluatedView> {
    Seq::new(
        answered_count(dataset, result),
        |i: int|
            EvaluatedView {
                question_text: dataset.questions()[i].question,
                correct: dataset.questions()[i].correct_option_id == result.submitted()[i].id,
            },
    )
}

/// The test that picks the correct verdicts out of a sequence.
pub open spec fn is_correct() -> spec_fn(EvaluatedView) -> bool {
    |entry: EvaluatedView| entry.correct
}

/// The number of correct verdicts among the given ones.
pub open spec fn correct_count(evaluated: Seq<EvaluatedView>) -> nat {
    evaluated.filter(is_correct()).len()
}

/// The number of questions that have been answered correctly.
pub open spec fn correct_answers(
    dataset: ChallengeDatasetView,
    result: ChallengeResultView,
) -> nat {
    correct_count(spec_evaluate(dataset, result))
}

/// The whole percent reached with `correct` of `total` questions answered
/// correctly, rounded down.
pub open spec fn spec_percent(correct: nat, total: nat) -> nat
    recommends
        0 < total,
{
    (100 * correct / total) as nat
}

/// Pairs each answer with its question and judges it.
pub fn evaluate(dataset: &ChallengeDataset, result: &ChallengeResult) -> (evaluated: Vec<Evaluated>)
    ensures
        views(evaluated@) == spec_evaluate(dataset@, result@),
        evaluated@.len() == answered_count(dataset@, result@),
        forall|i: int|
            0 <= i < evaluated@.len() ==> {
                &&& (#[trigger] evaluated@[i]).question_text@ == dataset@.questions()[i].question
                &&& evaluated@[i].correct == (dataset@.questions()[i].correct_option_id
                    == result@.submitted()[i].id)
            },
{
    match (dataset, result) {
        (ChallengeDataset::MultipleChoice(data), ChallengeResult::MultipleChoice(submitted)) => {
            let mut evaluated: Vec<Evaluated> = Vec::new();
            let mut i: usize = 0;
            while i < data.questions.len() && i < submitted.len()
                invariant
                    dataset@ == ChallengeDatasetView::MultipleChoice(data@),
                    result@ == ChallengeResultView::MultipleChoice(submitted@),
                    i <= data.questions.len(),
                    i <= submitted.len(),
                    evaluated@.len() == i,
                    forall|k: int|
                        0 <= k < i ==> (#[trigger] evaluated@[k])@ == spec_evaluate(
                            dataset@,
                            result@,
                        )[k],
                decreases data.questions.len() - i,
            {
                let question = &data.questions[i];
                evaluated.push(
                    Evaluated {
                        question_text: question.question.clone(),
                        correct: question.correct_option_id == submitted[i].id,
                    },
                );
                i += 1;
            }
            assert(views(evaluated@) =~= spec_evaluate(dataset@, result@));
            evaluated
        },
    }
}

/// With no more answers than questions, every answer gets its verdict, at
/// its own position: the verdict at position `i` carries the text of
/// question `i` and says whether answer `i` names the option asked for.
pub proof fn lemma_evaluate_by_position(dataset: ChallengeDatasetView, result: ChallengeResultView)
    requires
        result.submitted().len() <= dataset.questions().len(),
    ensures
        spec_evaluate(dataset, result).len() == result.submitted().len(),
        forall|i: int|
            0 <= i < result.submitted().len() ==> {
                &&& (#[trigger] spec_evaluate(dataset, result)[i]).question_text
                    == dataset.questions()[i].question
                &&& spec_evaluate(dataset, result)[i].correct == (
                dataset.questions()[i].correct_option_id == result.submitted()[i].id)
            },
{
}

/// One more verdict adds one to the count if it is correct, and nothing if
/// it is not.
pub proof fn lemma_correct_count_push(evaluated: Seq<EvaluatedView>, entry: EvaluatedView)
    ensures
        correct_count(evaluated.push(entry)) == correct_count(evaluated) + if entry.correct {
            1nat
        } else {
            0nat
        },
{
    evaluated.lemma_filter_len_push(is_correct(), entry);
}

/// There are no more correct verdicts than verdicts.
pub proof fn lemma_correct_count_bounded(evaluated: Seq<EvaluatedView>)
    ensures
        correct_count(evaluated) <= evaluated.len(),
{
    evaluated.lemma_filter_len(is_correct());
}

/// The share of the questions that have been answered correctly: `correct`
/// out of `total`, with at least one question and no more correct answers
/// than questions. The score in percent is `100 * correct / total`.
#[derive(Debug, PartialEq, Eq)]
pub struct Score {
    correct: usize,
    total: usize,
}

/// The mathematical content of a [`Score`].
pub struct ScoreView {
    pub correct: nat,
    pub total: nat,
}

impl View for Score {
    type V = ScoreView;

    closed spec fn view(&self) -> ScoreView {
        ScoreView { correct: self.correct as nat, total: self.total as nat }
    }
}

impl Score {
    #[verifier::type_invariant]
    spec fn in_range(self) -> bool {
        0 < self.total && self.correct <= self.total
    }

    /// The number of questions answered correctly.
    pub fn correct(&self) -> (count: usize)
        ensures
            count == self@.correct,
            count <= self@.total,
    {
        proof {
            use_type_invariant(self);
        }
        self.correct
    }

    /// The number of questions of the dataset, answered or not.
    pub fn total(&self) -> (count: usize)
        ensures
            count == self@.total,
            0 < count,
    {
        proof {
            use_type_invariant(self);
        }
        self.total
    }

    /// The score in whole percent, rounded down.
    pub fn percent(&self) -> (percent: u8)
        ensures
            percent == spec_percent(self@.correct, self@.total),
            percent <= 100,
    {
        proof {
            use_type_invariant(self);
            lemma_percent_in_range(self@.correct, self@.total);
        }
        let hundredfold: u128 = 100u128 * (self.correct as u128);
        (hundredfold / (self.total as u128)) as u8
    }
}

/// A percentage lies between 0 and 100: it is 100 when every question has
/// been answered correctly, and 0 when none has.
pub proof fn lemma_percent_in_range(correct: nat, total: nat)
    requires
        0 < total,
        correct <= total,
    ensures
        0 <= spec_percent(correct, total) <= 100,
        correct == total ==> spec_percent(correct, total) == 100,
        correct == 0 ==> spec_percent(correct, total) == 0,
{
    assert(0 <= 100 * correct / total <= 100) by (nonlinear_arith)
        requires
            0 < total,
            0 <= correct <= total,
    ;
    assert(correct == total ==> 100 * correct / total == 100) by (nonlinear_arith)
        requires
            0 < total,
    ;
}

/// With more correct answers the percentage does not fall.
pub proof fn lemma_percent_monotone(fewer: nat, more: nat, total: nat)
    requires
        0 < total,
        fewer <= more,
    ensures
        spec_percent(fewer, total) <= spec_percent(more, total),
{
    assert(100 * fewer / total <= 100 * more / total) by (nonlinear_arith)
        requires
            0 < total,
            0 <= fewer <= more,
    ;
}

/// The score of the answers given so far, over all questions of the dataset.
/// A dataset without questions has no score.
pub fn score(dataset: &ChallengeDataset, result: &ChallengeResult) -> (outcome: Result<
    Score,
    CoreError,
>)
    ensures
        match outcome {
            Ok(score) => {
                &&& 0 < dataset@.questions().len()
                &&& score@.total == dataset@.questions().len()
                &&& score@.correct == correct_answers(dataset@, result@)
            },
            Err(error) => error == CoreError::EmptyQuestionSet && dataset@.questions().len() == 0,
        },
{
    match (dataset, result) {
        (ChallengeDataset::MultipleChoice(data), ChallengeResult::MultipleChoice(submitted)) => {
            if data.questions.len() == 0 {
                return Err(CoreError::EmptyQuestionSet);
            }
            let ghost verdicts = spec_evaluate(dataset@, result@);
            let mut correct: usize = 0;
            let mut i: usize = 0;
            proof {
                assert(verdicts.take(0) =~= Seq::empty());
            }
            while i < data.questions.len() && i < submitted.len()
                invariant
                    dataset@ == ChallengeDatasetView::MultipleChoice(data@),
                    result@ == ChallengeResultView::MultipleChoice(submitted@),
                    verdicts == spec_evaluate(dataset@, result@),
                    i <= data.questions.len(),
                    i <= submitted.len(),
                    correct <= i,
                    correct == correct_count(verdicts.take(i as int)),
                decreases data.questions.len() - i,
            {
                proof {
                    assert(verdicts.take(i + 1) =~= verdicts.take(i as int).push(
                        verdicts[i as int],
                    ));
                    lemma_correct_count_push(verdicts.take(i as int), verdicts[i as int]);
                    lemma_correct_count_bounded(verdicts.take(i as int));
                }
                if data.questions[i].correct_option_id == submitted[i].id {
                    correct += 1;
                }
                i += 1;
            }
            proof {
                assert(verdicts.take(i as int) =~= verdicts);
            }
            Ok(Score { correct, total: data.questions.len() })
        },
    }
}

/// The count of correct answers never falls when one more answer is given,
/// it never exceeds the number of questions, and so the percentage stays
/// between 0 and 100 and never falls either. A correct answer to a question
/// that was still open raises the count by exactly one.
pub proof fn lemma_score_monotone(
    dataset: ChallengeDatasetView,
    result: ChallengeResultView,
    answer: SubmittedOption,
)
    ensures
        correct_answers(dataset, result) <= correct_answers(dataset, result.push(answer)),
        correct_answers(dataset, result.push(answer)) <= dataset.questions().len(),
        0 < dataset.questions().len() ==> {
            &&& spec_percent(correct_answers(dataset, result), dataset.questions().len())
                <= spec_percent(
                correct_answers(dataset, result.push(answer)),
                dataset.questions().len(),
            )
            &&& spec_percent(
                correct_answers(dataset, result.push(answer)),
                dataset.questions().len(),
            ) <= 100
        },
        result.submitted().len() < dataset.questions().len() ==> {
            let asked = dataset.questions()[result.submitted().len() as int];
            correct_answers(dataset, result.push(answer)) == correct_answers(dataset, result)
                + if asked.correct_option_id == answer.id {
                1nat
            } else {
                0nat
            }
        },
        result.submitted().len() >= dataset.questions().len() ==> correct_answers(
            dataset,
            result.push(answer),
        ) == correct_answers(dataset, result),
{
    let before = spec_evaluate(dataset, result);
    let after = spec_evaluate(dataset, result.push(answer));
    let answered = result.submitted().len() as int;
    if answered < dataset.questions().len() {
        assert(after =~= before.push(after[answered]));
        lemma_correct_count_push(before, after[answered]);
    } else {
        assert(after =~= before);
    }
    lemma_correct_count_bounded(after);
    if 0 < dataset.questions().len() {
        lemma_percent_monotone(
            correct_answers(dataset, result),
            correct_answers(dataset, result.push(answer)),
            dataset.questions().len(),
        );
        lemma_percent_in_range(
            correct_answers(dataset, result.push(answer)),
            dataset.questions().len(),
        );
    }
}

/// The colour class of the results panel.
#[derive(Clone, Copy, Debug, PartialEq, Eq, Structural)]
pub enum OutcomeColor {
    /// The last answer was correct.
    Correct,
    /// The last answer was wrong.
    Incorrect,
    /// No answer has been given yet.
    Neutral,
}

impl OutcomeColor {
    /// The red, green and blue intensities of the colour, in tenths of the
    /// full intensity.
    pub fn rgb_tenths(&self) -> (channels: (u8, u8, u8))
        ensures
            channels == match *self {
                OutcomeColor::Correct => (0u8, 10u8, 0u8),
                OutcomeColor::Incorrect => (10u8, 0u8, 0u8),
                OutcomeColor::Neutral => (1u8, 1u8, 1u8),
            },
    {
        match self {
            OutcomeColor::Correct => (0, 10, 0),
            OutcomeColor::Incorrect => (10, 0, 0),
            OutcomeColor::Neutral => (1, 1, 1),
        }
    }
}

/// The colour class that the given verdicts call for: that of the last
/// verdict, and the neutral one where there is none.
pub open spec fn spec_last_outcome_color(evaluated: Seq<EvaluatedView>) -> OutcomeColor {
    if evaluated.len() == 0 {
        OutcomeColor::Neutral
    } else if evaluated.last().correct {
        OutcomeColor::Correct
    } else {
        OutcomeColor::Incorrect
    }
}

/// Picks the colour class of the results panel from the verdicts.
pub fn last_outcome_color(evaluated: &[Evaluated]) -> (color: OutcomeColor)
    ensures
        color == spec_last_outcome_color(views(evaluated@)),
{
    let count = evaluated.len();
    if count == 0 {
        OutcomeColor::Neutral
    } else if evaluated[count - 1].correct {
        OutcomeColor::Correct
    } else {
        OutcomeColor::Incorrect
    }
}

} // verus!
