//! The data of a challenge: its identity, its questions and options, and the
//! answers given to it.

use vstd::prelude::*;

verus! {

/// Identifies one answer option of a dataset.
pub type OptionId = usize;

/// One question of a multiple-choice challenge.
#[derive(Debug, PartialEq, Eq)]
pub struct Question {
    pub question: String,
    pub help: String,
    /// The id of the option that answers the question.
    pub correct_option_id: OptionId,
}

/// The mathematical content of a [`Question`].
pub struct QuestionView {
    pub question: Seq<char>,
    pub help: Seq<char>,
    pub correct_option_id: OptionId,
}

impl View for Question {
    type V = QuestionView;

    open spec fn view(&self) -> QuestionView {
        QuestionView {
            question: self.question@,
            help: self.help@,
            correct_option_id: self.correct_option_id,
        }
    }
}

impl Clone for Question {
    fn clone(&self) -> (copy: Self)
        ensures
            copy == *self,
    {
        Question {
            question: self.question.clone(),
            help: self.help.clone(),
            correct_option_id: self.correct_option_id,
        }
    }
}

/// One answer that the user may pick.
#[derive(Debug, PartialEq, Eq)]
pub struct MultipleChoiceOption {
    pub id: OptionId,
    pub name: String,
}

/// The mathematical content of a [`MultipleChoiceOption`].
pub struct MultipleChoiceOptionView {
    pub id: OptionId,
    pub name: Seq<char>,
}

impl View for MultipleChoiceOption {
    type V = MultipleChoiceOptionView;

    open spec fn view(&self) -> MultipleChoiceOptionView {
        MultipleChoiceOptionView { id: self.id, name: self.name@ }
    }
}

impl Clone for MultipleChoiceOption {
    fn clone(&self) -> (copy: Self)
        ensures
            copy == *self,
    {
        MultipleChoiceOption { id: self.id, name: self.name.clone() }
    }
}

/// The views of the elements of a sequence, in order.
pub open spec fn views<T: View>(items: Seq<T>) -> Seq<T::V> {
    items.map_values(|item: T| item@)
}

/// Questions in the order in which they are asked, and the options offered
/// for each of them.
#[derive(Debug, PartialEq, Eq)]
pub struct MultipleChoice {
    pub questions: Vec<Question>,
    pub options: Vec<MultipleChoiceOption>,
}

/// The mathematical content of a [`MultipleChoice`] dataset.
pub struct MultipleChoiceView {
    pub questions: Seq<QuestionView>,
    pub options: Seq<MultipleChoiceOptionView>,
}

impl View for MultipleChoice {
    type V = MultipleChoiceView;

    open spec fn view(&self) -> MultipleChoiceView {
        MultipleChoiceView { questions: views(self.questions@), options: views(self.options@) }
    }
}

impl MultipleChoiceView {
    /// Whether some option carries the given id.
    pub open spec fn has_option(self, id: OptionId) -> bool {
        exists|j: int| 0 <= j < self.options.len() && (#[trigger] self.options[j]).id == id
    }

    /// Every question names an option of the dataset as its answer.
    pub open spec fn well_formed(self) -> bool {
        forall|i: int|
            0 <= i < self.questions.len() ==> self.has_option(
                (#[trigger] self.questions[i]).correct_option_id,
            )
    }
}

impl MultipleChoice {
    /// Tells whether an option with the given id is offered.
    pub fn has_option(&self, id: OptionId) -> (found: bool)
        ensures
            found == self@.has_option(id),
    {
        let mut j: usize = 0;
        while j < self.options.len()
            invariant
                j <= self.options.len(),
                forall|k: int| 0 <= k < j ==> (#[trigger] self@.options[k]).id != id,
            decreases self.options.len() - j,
        {
            if self.options[j].id == id {
                assert(self@.options[j as int].id == id);
                return true;
            }
            j += 1;
        }
        false
    }

    /// Tells whether every question names an offered option as its answer.
    pub fn is_well_formed(&self) -> (ok: bool)
        ensures
            ok == self@.well_formed(),
    {
        let mut i: usize = 0;
        while i < self.questions.len()
            invariant
                i <= self.questions.len(),
                forall|k: int|
                    0 <= k < i ==> self@.has_option(
                        (#[trigger] self@.questions[k]).correct_option_id,
                    ),
            decreases self.questions.len() - i,
        {
            if !self.has_option(self.questions[i].correct_option_id) {
                assert(!self@.has_option(self@.questions[i as int].correct_option_id));
                return false;
            }
            i += 1;
        }
        true
    }
}

/// The questions and options of one challenge.
#[derive(Debug, PartialEq, Eq)]
pub enum ChallengeDataset {
    MultipleChoice(MultipleChoice),
}

/// The mathematical content of a [`ChallengeDataset`].
pub enum ChallengeDatasetView {
    MultipleChoice(MultipleChoiceView),
}

impl View for ChallengeDataset {
    type V = ChallengeDatasetView;

    open spec fn view(&self) -> ChallengeDatasetView {
        match self {
            ChallengeDataset::MultipleChoice(dataset) => ChallengeDatasetView::MultipleChoice(
                dataset@,
            ),
        }
    }
}

impl ChallengeDatasetView {
    /// The questions, in the order in which they are asked.
    pub open spec fn questions(self) -> Seq<QuestionView> {
        match self {
            ChallengeDatasetView::MultipleChoice(dataset) => dataset.questions,
        }
    }

    /// The options offered for every question.
    pub open spec fn options(self) -> Seq<MultipleChoiceOptionView> {
        match self {
            ChallengeDatasetView::MultipleChoice(dataset) => dataset.options,
        }
    }

    /// Every question names an option of the dataset as its answer.
    pub open spec fn well_formed(self) -> bool {
        match self {
            ChallengeDatasetView::MultipleChoice(dataset) => dataset.well_formed(),
        }
    }

    /// A dataset without questions and options.
    pub open spec fn empty() -> ChallengeDatasetView {
        ChallengeDatasetView::MultipleChoice(
            MultipleChoiceView { questions: Seq::empty(), options: Seq::empty() },
        )
    }
}

impl ChallengeDataset {
    /// A dataset without questions and options.
    pub fn empty() -> (dataset: ChallengeDataset)
        ensures
            dataset@ == ChallengeDatasetView::empty(),
    {
        let dataset = ChallengeDataset::MultipleChoice(
            MultipleChoice { questions: Vec::new(), options: Vec::new() },
        );
        assert(dataset@.questions() =~= Seq::empty());
        assert(dataset@.options() =~= Seq::empty());
        dataset
    }

    /// A dataset of the given questions and options, if every question
    /// names one of the options as its answer.
    pub fn multiple_choice(
        questions: Vec<Question>,
        options: Vec<MultipleChoiceOption>,
    ) -> (made: Option<ChallengeDataset>)
        ensures
            match made {
                Some(dataset) => {
                    &&& dataset@.well_formed()
                    &&& dataset@.questions() == views(questions@)
                    &&& dataset@.options() == views(options@)
                },
                None => !(MultipleChoiceView {
                    questions: views(questions@),
                    options: views(options@),
                }).well_formed(),
            },
    {
        let data = MultipleChoice { questions, options };
        if data.is_well_formed() {
            Some(ChallengeDataset::MultipleChoice(data))
        } else {
            None
        }
    }

    /// The number of questions.
    pub fn question_count(&self) -> (count: usize)
        ensures
            count == self@.questions().len(),
    {
        match self {
            ChallengeDataset::MultipleChoice(dataset) => dataset.questions.len(),
        }
    }

    /// The number of options.
    pub fn option_count(&self) -> (count: usize)
        ensures
            count == self@.options().len(),
    {
        match self {
            ChallengeDataset::MultipleChoice(dataset) => dataset.options.len(),
        }
    }

    /// The question at the given position, if there is one.
    pub fn question(&self, index: usize) -> (found: Option<&Question>)
        ensures
            match found {
                Some(question) => index < self@.questions().len() && question@
                    == self@.questions()[index as int],
                None => index >= self@.questions().len(),
            },
    {
        match self {
            ChallengeDataset::MultipleChoice(dataset) => {
                if index < dataset.questions.len() {
                    Some(&dataset.questions[index])
                } else {
                    None
                }
            },
        }
    }

    /// The option at the given position, if there is one.
    pub fn option(&self, index: usize) -> (found: Option<&MultipleChoiceOption>)
        ensures
            match found {
                Some(option) => index < self@.options().len() && option@
                    == self@.options()[index as int],
                None => index >= self@.options().len(),
            },
    {
        match self {
            ChallengeDataset::MultipleChoice(dataset) => {
                if index < dataset.options.len() {
                    Some(&dataset.options[index])
                } else {
                    None
                }
            },
        }
    }

    /// Tells whether every question names an offered option as its answer.
    pub fn is_well_formed(&self) -> (ok: bool)
        ensures
            ok == self@.well_formed(),
    {
        match self {
            ChallengeDataset::MultipleChoice(dataset) => dataset.is_well_formed(),
        }
    }
}

/// One answer that the user has given.
#[derive(Clone, Copy, Debug, PartialEq, Eq, Structural)]
pub struct SubmittedOption {
    pub id: OptionId,
}

/// The answers given so far, in the order of the questions.
#[derive(Debug, PartialEq, Eq)]
pub enum ChallengeResult {
    MultipleChoice(Vec<SubmittedOption>),
}

/// The mathematical content of a [`ChallengeResult`].
pub enum ChallengeResultView {
    MultipleChoice(Seq<SubmittedOption>),
}

impl View for ChallengeResult {
    type V = ChallengeResultView;

    open spec fn view(&self) -> ChallengeResultView {
        match self {
            ChallengeResult::MultipleChoice(submitted) => ChallengeResultView::MultipleChoice(
                submitted@,
            ),
        }
    }
}

impl ChallengeResultView {
    /// The answers given so far: the entry at position `i` answers question `i`.
    pub open spec fn submitted(self) -> Seq<SubmittedOption> {
        match self {
            ChallengeResultView::MultipleChoice(submitted) => submitted,
        }
    }

    /// A result without answers.
    pub open spec fn empty() -> ChallengeResultView {
        ChallengeResultView::MultipleChoice(Seq::empty())
    }

    /// This result with one more answer at its end.
    pub open spec fn push(self, answer: SubmittedOption) -> ChallengeResultView {
        ChallengeResultView::MultipleChoice(self.submitted().push(answer))
    }
}

impl ChallengeResult {
    /// A result without answers.
    pub fn empty() -> (result: ChallengeResult)
        ensures
            result@ == ChallengeResultView::empty(),
    {
        ChallengeResult::MultipleChoice(Vec::new())
    }

    /// The number of answers given so far.
    pub fn len(&self) -> (count: usize)
        ensures
            count == self@.submitted().len(),
    {
        match self {
            ChallengeResult::MultipleChoice(submitted) => submitted.len(),
        }
    }

    /// The answer given to the question at the given position, if any.
    pub fn get(&self, index: usize) -> (found: Option<SubmittedOption>)
        ensures
            found == if index < self@.submitted().len() {
                Some(self@.submitted()[index as int])
            } else {
                None
            },
    {
        match self {
            ChallengeResult::MultipleChoice(submitted) => {
                if index < submitted.len() {
                    Some(submitted[index])
                } else {
                    None
                }
            },
        }
    }

    /// Records one more answer behind those given so far.
    pub fn push(&mut self, answer: SubmittedOption)
        ensures
            final(self)@ == old(self)@.push(answer),
    {
        match self {
            ChallengeResult::MultipleChoice(submitted) => {
                submitted.push(answer);
            },
        }
    }
}

/// Identity and map position of one challenge.
#[derive(Debug, PartialEq, Eq)]
pub struct ChallengeConfig {
    pub id: String,
    pub name: String,
    pub description: String,
    /// Where the challenge sits on the map, if it has a place there.
    pub position: Option<(i32, i32)>,
}

/// The mathematical content of a [`ChallengeConfig`].
pub struct ChallengeConfigView {
    pub id: Seq<char>,
    pub name: Seq<char>,
    pub description: Seq<char>,
    pub position: Option<(i32, i32)>,
}

impl View for ChallengeConfig {
    type V = ChallengeConfigView;

    open spec fn view(&self) -> ChallengeConfigView {
        ChallengeConfigView {
            id: self.id@,
            name: self.name@,
            description: self.description@,
            position: self.position,
        }
    }
}

impl ChallengeConfigView {
    /// A config whose texts are empty and which has no place on the map.
    pub open spec fn empty() -> ChallengeConfigView {
        ChallengeConfigView {
            id: Seq::empty(),
            name: Seq::empty(),
            description: Seq::empty(),
            position: None,
        }
    }

    /// The map coordinates of the challenge; one without a position sits at
    /// the origin.
    pub open spec fn node(self) -> (i32, i32) {
        match self.position {
            Some(position) => position,
            None => (0i32, 0i32),
        }
    }
}

impl Clone for ChallengeConfig {
    fn clone(&self) -> (copy: Self)
        ensures
            copy == *self,
    {
        ChallengeConfig {
            id: self.id.clone(),
            name: self.name.clone(),
            description: self.description.clone(),
            position: self.position,
        }
    }
}

impl ChallengeConfig {
    /// A config whose texts are empty and which has no place on the map.
    pub fn empty() -> (config: ChallengeConfig)
        ensures
            config@ == ChallengeConfigView::empty(),
    {
        ChallengeConfig {
            id: String::new(),
            name: String::new(),
            description: String::new(),
            position: None,
        }
    }

    /// The map coordinates of the challenge; one without a position sits at
    /// the origin.
    pub fn node(&self) -> (node: (i32, i32))
        ensures
            node == self@.node(),
    {
        match self.position {
            Some(position) => position,
            None => (0, 0),
        }
    }
}

/// One attempt at a challenge: what is asked and what has been answered.
#[derive(Debug, PartialEq, Eq)]
pub struct ChallengeInstance {
    pub challenge_config: ChallengeConfig,
    pub challenge_type: ChallengeDataset,
    pub challenge_result: ChallengeResult,
}

/// The mathematical content of a [`ChallengeInstance`].
pub struct ChallengeInstanceView {
    pub challenge_config: ChallengeConfigView,
    pub challenge_type: ChallengeDatasetView,
    pub challenge_result: ChallengeResultView,
}

impl View for ChallengeInstance {
    type V = ChallengeInstanceView;

    open spec fn view(&self) -> ChallengeInstanceView {
        ChallengeInstanceView {
            challenge_config: self.challenge_config@,
            challenge_type: self.challenge_type@,
            challenge_result: self.challenge_result@,
        }
    }
}

impl ChallengeInstanceView {
    /// An attempt at the given challenge to which no answer has been given.
    pub open spec fn fresh(
        config: ChallengeConfigView,
        dataset: ChallengeDatasetView,
    ) -> ChallengeInstanceView {
        ChallengeInstanceView {
            challenge_config: config,
            challenge_type: dataset,
            challenge_result: ChallengeResultView::empty(),
        }
    }

    /// The attempt that exists before any challenge has been picked.
    pub open spec fn empty() -> ChallengeInstanceView {
        ChallengeInstanceView::fresh(ChallengeConfigView::empty(), ChallengeDatasetView::empty())
    }
}

impl ChallengeInstance {
    /// An attempt at the given challenge to which no answer has been given.
    pub fn fresh(config: ChallengeConfig, dataset: ChallengeDataset) -> (instance:
        ChallengeInstance)
        ensures
            instance@ == ChallengeInstanceView::fresh(config@, dataset@),
    {
        ChallengeInstance {
            challenge_config: config,
            challenge_type: dataset,
            challenge_result: ChallengeResult::empty(),
        }
    }

    /// The attempt that exists before any challenge has been picked.
    pub fn empty() -> (instance: ChallengeInstance)
        ensures
            instance@ == ChallengeInstanceView::empty(),
    {
        ChallengeInstance::fresh(ChallengeConfig::empty(), ChallengeDataset::empty())
    }
}

/// The challenges of the map, in their order.
#[derive(Debug, PartialEq, Eq)]
pub struct GamePath {
    pub challenges: Vec<ChallengeConfig>,
}

impl View for GamePath {
    type V = Seq<ChallengeConfigView>;

    open spec fn view(&self) -> Seq<ChallengeConfigView> {
        views(self.challenges@)
    }
}

/// Whether `index` is the first place of `path` that holds a challenge with
/// the given id.
pub open spec fn is_first_with_id(
    path: Seq<ChallengeConfigView>,
    id: Seq<char>,
    index: int,
) -> bool {
    &&& 0 <= index < path.len()
    &&& path[index].id == id
    &&& forall|j: int| 0 <= j < index ==> (#[trigger] path[j]).id != id
}

/// Whether some challenge of `path` carries the given id.
pub open spec fn has_challenge(path: Seq<ChallengeConfigView>, id: Seq<char>) -> bool {
    exists|j: int| 0 <= j < path.len() && (#[trigger] path[j]).id == id
}

impl GamePath {
    /// A path without challenges.
    pub fn empty() -> (path: GamePath)
        ensures
            path@ == Seq::<ChallengeConfigView>::empty(),
    {
        let path = GamePath { challenges: Vec::new() };
        assert(path@ =~= Seq::empty());
        path
    }

    /// Looks a challenge up by its id: the first one that carries it.
    pub fn find(&self, challenge_id: &String) -> (found: Option<usize>)
        ensures
            match found {
                Some(index) => is_first_with_id(self@, challenge_id@, index as int),
                None => !has_challenge(self@, challenge_id@),
            },
    {
        let mut i: usize = 0;
        while i < self.challenges.len()
            invariant
                i <= self.challenges.len(),
                forall|j: int| 0 <= j < i ==> (#[trigger] self@[j]).id != challenge_id@,
            decreases self.challenges.len() - i,
        {
            if self.challenges[i].id == *challenge_id {
                assert(self@[i as int].id == challenge_id@);
                return Some(i);
            }
            i += 1;
        }
        None
    }
}

} // verus!
