//! The lines of the results panel, and the colour that they call for.

use crate::challenge::{views, ChallengeDataset, ChallengeResult};
use crate::evaluator::{
    evaluate, spec_evaluate, spec_last_outcome_color, Evaluated, EvaluatedView, OutcomeColor,
};
use crate::text::{join, spec_join, starts_with};
use vstd::prelude::*;
use vstd::string::StringExecFns;

verus! {

/// The word that opens the line of a verdict.
pub open spec fn verdict_word(correct: bool) -> Seq<char> {
    if correct {
        "Correct"@
    } else {
        "Incorrect"@
    }
}

/// The line shown for an answered question: the word for the verdict, a
/// colon and a blank, and the text of the question.
pub open spec fn spec_line(entry: EvaluatedView) -> Seq<char> {
    verdict_word(entry.correct) + ": "@ + entry.question_text
}

/// The lines shown for the given verdicts, in their order.
pub open spec fn spec_lines(evaluated: Seq<EvaluatedView>) -> Seq<Seq<char>> {
    evaluated.map_values(|entry: EvaluatedView| spec_line(entry))
}

impl Evaluated {
    /// The line shown for this verdict.
    pub fn line(&self) -> (text: String)
        ensures
            text@ == spec_line(self@),
    {
        let word = if self.correct {
            "Correct"
        } else {
            "Incorrect"
        };
        String::from_str(word).concat(": ").concat(self.question_text.as_str())
    }
}

/// The lines shown for the answers given so far, one for each answered
/// question.
pub fn calculate_results(dataset: &ChallengeDataset, result: &ChallengeResult) -> (lines: Vec<
    String,
>)
    ensures
        views(lines@) == spec_lines(spec_evaluate(dataset@, result@)),
{
    let evaluated = evaluate(dataset, result);
    let mut lines: Vec<String> = Vec::new();
    let mut i: usize = 0;
    while i < evaluated.len()
        invariant
            i <= evaluated.len(),
            lines@.len() == i,
            forall|k: int| 0 <= k < i ==> (#[trigger] lines@[k])@ == spec_line(evaluated@[k]@),
        decreases evaluated.len() - i,
    {
        lines.push(evaluated[i].line());
        i += 1;
    }
    assert(views(lines@) =~= spec_lines(views(evaluated@)));
    lines
}

/// The colour class that the given lines call for: the neutral one where
/// there is no line, else that of a correct answer exactly when the last
/// line begins with the word used for one.
pub open spec fn spec_last_result_color(lines: Seq<Seq<char>>) -> OutcomeColor {
    if lines.len() == 0 {
        OutcomeColor::Neutral
    } else if "Correct"@.is_prefix_of(lines.last()) {
        OutcomeColor::Correct
    } else {
        OutcomeColor::Incorrect
    }
}

/// Picks the colour class of the results panel from the lines shown in it.
pub fn last_result_color(results: &[String]) -> (color: OutcomeColor)
    ensures
        color == spec_last_result_color(views(results@)),
{
    let count = results.len();
    if count == 0 {
        OutcomeColor::Neutral
    } else if starts_with(results[count - 1].as_str(), "Correct") {
        OutcomeColor::Correct
    } else {
        OutcomeColor::Incorrect
    }
}

/// The line of a verdict begins with the word for a correct answer exactly
/// when the verdict is one.
pub proof fn lemma_line_tells_verdict(entry: EvaluatedView)
    ensures
        "Correct"@.is_prefix_of(spec_line(entry)) == entry.correct,
{
    reveal_strlit("Correct");
    reveal_strlit("Incorrect");
    reveal_strlit(": ");
    let line = spec_line(entry);
    if entry.correct {
        assert(line.subrange(0, 7) =~= "Correct"@);
    } else {
        assert(line[0] == 'I');
        if "Correct"@.is_prefix_of(line) {
            assert(line.subrange(0, 7)[0] == "Correct"@[0]);
        }
    }
}

/// The colour class read from the lines is the one read from the verdicts
/// that the lines were made of.
pub proof fn lemma_lines_keep_color(evaluated: Seq<EvaluatedView>)
    ensures
        spec_last_result_color(spec_lines(evaluated)) == spec_last_outcome_color(evaluated),
{
    if evaluated.len() > 0 {
        lemma_line_tells_verdict(evaluated.last());
    }
}

/// The line of the summary for an answered question: the text of the
/// question, a colon and a blank, and the word for the verdict.
pub open spec fn spec_summary_line(entry: EvaluatedView) -> Seq<char> {
    entry.question_text + ": "@ + verdict_word(entry.correct)
}

/// The summary of the given verdicts: one line for each, in their order.
pub open spec fn spec_summary(evaluated: Seq<EvaluatedView>) -> Seq<char> {
    spec_join(evaluated.map_values(|entry: EvaluatedView| spec_summary_line(entry)), "\n"@)
}

impl Evaluated {
    /// The line of the summary for this verdict.
    pub fn summary_line(&self) -> (text: String)
        ensures
            text@ == spec_summary_line(self@),
    {
        let word = if self.correct {
            "Correct"
        } else {
            "Incorrect"
        };
        self.question_text.clone().concat(": ").concat(word)
    }
}

/// Writes the summary of the answers given so far, one line for each
/// answered question.
pub fn results_summary(dataset: &ChallengeDataset, result: &ChallengeResult) -> (text: String)
    ensures
        text@ == spec_summary(spec_evaluate(dataset@, result@)),
{
    let evaluated = evaluate(dataset, result);
    let mut lines: Vec<String> = Vec::new();
    let mut i: usize = 0;
    while i < evaluated.len()
        invariant
            i <= evaluated.len(),
            lines@.len() == i,
            forall|k: int|
                0 <= k < i ==> (#[trigger] lines@[k])@ == spec_summary_line(evaluated@[k]@),
        decreases evaluated.len() - i,
    {
        lines.push(evaluated[i].summary_line());
        i += 1;
    }
    assert(lines@.map_values(|line: String| line@) =~= views(evaluated@).map_values(
        |entry: EvaluatedView| spec_summary_line(entry),
    ));
    join(lines.as_slice(), "\n")
}

} // verus!
