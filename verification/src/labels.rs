//! The texts that the screens of a challenge show.

use crate::challenge::{
    views, ChallengeConfig, ChallengeConfigView, ChallengeDataset, MultipleChoiceOptionView,
    Question, QuestionView,
};
use crate::text::{decimal, spec_decimal};
use vstd::prelude::*;
use vstd::string::StringExecFns;

verus! {

/// The heading of the challenge screen: the name of the challenge and,
/// after an empty line, its description.
pub open spec fn spec_challenge_heading(config: ChallengeConfigView) -> Seq<char> {
    "Challenge: "@ + config.name + "\n\n"@ + config.description
}

/// Writes the heading of the challenge screen.
pub fn challenge_heading(config: &ChallengeConfig) -> (text: String)
    ensures
        text@ == spec_challenge_heading(config@),
{
    String::from_str("Challenge: ").concat(config.name.as_str()).concat("\n\n").concat(
        config.description.as_str(),
    )
}

/// The text shown for a question: the question and, after an empty line,
/// the help that goes with it.
pub open spec fn spec_question_text(question: QuestionView) -> Seq<char> {
    "Question: "@ + question.question + "\n\n"@ + question.help
}

/// Writes the text shown for a question.
pub fn question_text(question: &Question) -> (text: String)
    ensures
        text@ == spec_question_text(question@),
{
    String::from_str("Question: ").concat(question.question.as_str()).concat("\n\n").concat(
        question.help.as_str(),
    )
}

/// The label of the task counter: tasks are counted from one.
pub open spec fn spec_task_label(task_index: nat) -> Seq<char> {
    "Task: "@ + spec_decimal(task_index + 1)
}

/// Writes the label of the task counter.
pub fn task_label(task_index: usize) -> (text: String)
    ensures
        text@ == spec_task_label(task_index as nat),
{
    let number = decimal(task_index as u128 + 1);
    String::from_str("Task: ").concat(number.as_str())
}

/// The label of the button of an option: its number, counted from one, a
/// full stop and a blank, and its name.
pub open spec fn spec_option_label(index: nat, name: Seq<char>) -> Seq<char> {
    spec_decimal(index + 1) + ". "@ + name
}

/// The labels of the buttons of the given options, in their order.
pub open spec fn spec_option_labels(options: Seq<MultipleChoiceOptionView>) -> Seq<Seq<char>> {
    Seq::new(options.len(), |i: int| spec_option_label(i as nat, options[i].name))
}

/// Writes the label of the button of the option at the given position.
pub fn option_label(index: usize, name: &str) -> (text: String)
    ensures
        text@ == spec_option_label(index as nat, name@),
{
    decimal(index as u128 + 1).concat(". ").concat(name)
}

/// Writes the labels of the buttons of all options of the dataset.
pub fn option_labels(dataset: &ChallengeDataset) -> (labels: Vec<String>)
    ensures
        views(labels@) == spec_option_labels(dataset@.options()),
{
    match dataset {
        ChallengeDataset::MultipleChoice(data) => {
            let mut labels: Vec<String> = Vec::new();
            let mut i: usize = 0;
            while i < data.options.len()
                invariant
                    i <= data.options.len(),
                    labels@.len() == i,
                    forall|k: int|
                        0 <= k < i ==> (#[trigger] labels@[k])@ == spec_option_label(
                            k as nat,
                            data@.options[k].name,
                        ),
                decreases data.options.len() - i,
            {
                labels.push(option_label(i, data.options[i].name.as_str()));
                i += 1;
            }
            assert(views(labels@) =~= spec_option_labels(dataset@.options()));
            labels
        },
    }
}

} // verus!
