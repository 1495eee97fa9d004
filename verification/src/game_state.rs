//! The state of the game and the two commands that change it.

use crate::challenge::{
    has_challenge, is_first_with_id, views, ChallengeConfigView, ChallengeDataset,
    ChallengeDatasetView, ChallengeInstance, ChallengeInstanceView, GamePath,
    MultipleChoiceOptionView, Question, QuestionView, SubmittedOption,
};
use crate::error::CoreError;
use crate::evaluator::{
    correct_answers, evaluate, score, spec_evaluate, Evaluated, EvaluatedView, Score,
};
use crate::map_layout::{layout, spec_layout, PixelPosition};
use vstd::prelude::*;

verus! {

/// Where an attempt at a challenge stands.
#[derive(Clone, Copy, Debug, PartialEq, Eq, Structural)]
pub enum SessionState {
    /// The question at the given position waits for its answer.
    AwaitingAnswer(usize),
    /// Every question has been answered.
    Completed,
}

/// The mathematical content of a [`GameState`].
pub struct GameStateView {
    pub game_path: Seq<ChallengeConfigView>,
    pub challenge: ChallengeInstanceView,
    pub current_task_index: nat,
}

/// The first place of `path` that holds a challenge with the given id.
pub open spec fn first_with_id(path: Seq<ChallengeConfigView>, id: Seq<char>) -> int {
    choose|index: int| is_first_with_id(path, id, index)
}

/// A path that holds the id holds it at exactly one first place.
pub proof fn lemma_first_with_id(path: Seq<ChallengeConfigView>, id: Seq<char>, index: int)
    requires
        is_first_with_id(path, id, index),
    ensures
        has_challenge(path, id),
        first_with_id(path, id) == index,
{
    let chosen = first_with_id(path, id);
    assert(is_first_with_id(path, id, chosen));
    if chosen < index {
        assert(path[chosen].id != id);
    }
    if index < chosen {
        assert(path[index].id != id);
    }
}

/// A path that holds the id holds it at a first place.
pub proof fn lemma_first_with_id_exists(path: Seq<ChallengeConfigView>, id: Seq<char>)
    requires
        has_challenge(path, id),
    ensures
        is_first_with_id(path, id, first_with_id(path, id)),
{
    let found = choose|j: int| 0 <= j < path.len() && (#[trigger] path[j]).id == id;
    lemma_none_before_first(path, id, found);
}

proof fn lemma_none_before_first(path: Seq<ChallengeConfigView>, id: Seq<char>, found: int)
    requires
        0 <= found < path.len(),
        path[found].id == id,
    ensures
        exists|index: int| is_first_with_id(path, id, index),
    decreases found,
{
    if exists|j: int| 0 <= j < found && (#[trigger] path[j]).id == id {
        let earlier = choose|j: int| 0 <= j < found && (#[trigger] path[j]).id == id;
        lemma_none_before_first(path, id, earlier);
    } else {
        assert(is_first_with_id(path, id, found));
    }
}

impl GameStateView {
    /// The questions of the active challenge.
    pub open spec fn questions(self) -> Seq<QuestionView> {
        self.challenge.challenge_type.questions()
    }

    /// The options of the active challenge.
    pub open spec fn options(self) -> Seq<MultipleChoiceOptionView> {
        self.challenge.challenge_type.options()
    }

    /// The answers given so far to the active challenge.
    pub open spec fn submitted(self) -> Seq<SubmittedOption> {
        self.challenge.challenge_result.submitted()
    }

    /// There is one answer for each question before the current one, and
    /// the current one is a question of the challenge or the end of them.
    pub open spec fn well_formed(self) -> bool {
        &&& self.submitted().len() == self.current_task_index
        &&& self.current_task_index <= self.questions().len()
    }

    /// Whether every question of the active challenge has been answered.
    pub open spec fn is_completed(self) -> bool {
        self.current_task_index >= self.questions().len()
    }

    /// Where the attempt at the active challenge stands.
    pub open spec fn session(self) -> SessionState {
        if self.is_completed() {
            SessionState::Completed
        } else {
            SessionState::AwaitingAnswer(self.current_task_index as usize)
        }
    }

    /// The state at the start of the application: the given path, and an
    /// empty challenge.
    pub open spec fn initial(game_path: Seq<ChallengeConfigView>) -> GameStateView {
        GameStateView {
            game_path,
            challenge: ChallengeInstanceView::empty(),
            current_task_index: 0,
        }
    }

    /// This state with one more answer, which names the given option.
    pub open spec fn with_answer(self, id: usize) -> GameStateView {
        GameStateView {
            game_path: self.game_path,
            challenge: ChallengeInstanceView {
                challenge_config: self.challenge.challenge_config,
                challenge_type: self.challenge.challenge_type,
                challenge_result: self.challenge.challenge_result.push(SubmittedOption { id }),
            },
            current_task_index: self.current_task_index + 1,
        }
    }

    /// The verdicts on the answers given so far.
    pub open spec fn evaluated(self) -> Seq<EvaluatedView> {
        spec_evaluate(self.challenge.challenge_type, self.challenge.challenge_result)
    }

    /// The number of correct answers given so far.
    pub open spec fn correct_answers(self) -> nat {
        correct_answers(self.challenge.challenge_type, self.challenge.challenge_result)
    }

    /// The map coordinates of the challenges of the path, in their order.
    pub open spec fn nodes(self) -> Seq<(i32, i32)> {
        self.game_path.map_values(|config: ChallengeConfigView| config.node())
    }

    /// What answering the current question with the option at `option_index`
    /// leads to. An index outside the option list is refused first; an
    /// answer after the last question is refused next; otherwise the id of
    /// the option is recorded and the next question becomes the current one.
    pub open spec fn solve_option(self, option_index: usize) -> Result<GameStateView, CoreError> {
        if option_index >= self.options().len() {
            Err(CoreError::InvalidOptionIndex)
        } else if self.is_completed() {
            Err(CoreError::ChallengeAlreadyCompleted)
        } else {
            Ok(self.with_answer(self.options()[option_index as int].id))
        }
    }

    /// What picking the challenge with the given id leads to: a fresh
    /// attempt at the first challenge of the path that carries the id, with
    /// the given dataset; a path without the id refuses.
    pub open spec fn create_challenge(
        self,
        challenge_id: Seq<char>,
        dataset: ChallengeDatasetView,
    ) -> Result<GameStateView, CoreError> {
        if has_challenge(self.game_path, challenge_id) {
            Ok(
                GameStateView {
                    game_path: self.game_path,
                    challenge: ChallengeInstanceView::fresh(
                        self.game_path[first_with_id(self.game_path, challenge_id)],
                        dataset,
                    ),
                    current_task_index: 0,
                },
            )
        } else {
            Err(CoreError::ChallengeNotFound)
        }
    }
}

/// The state of the game: the challenges of the map, the attempt at the
/// active challenge, and the position of the question that is asked next.
#[derive(Debug, PartialEq, Eq)]
pub struct GameState {
    game_path: GamePath,
    challenge: ChallengeInstance,
    current_task_index: usize,
}

impl View for GameState {
    type V = GameStateView;

    closed spec fn view(&self) -> GameStateView {
        GameStateView {
            game_path: self.game_path@,
            challenge: self.challenge@,
            current_task_index: self.current_task_index as nat,
        }
    }
}

impl Default for GameState {
    /// The state with an empty path and an empty challenge.
    fn default() -> (state: GameState)
        ensures
            state@ == GameStateView::initial(Seq::empty()),
    {
        GameState::new(GamePath::empty())
    }
}

impl GameState {
    #[verifier::type_invariant]
    spec fn consistent(self) -> bool {
        self@.well_formed()
    }

    /// The state at the start of the application.
    pub fn new(game_path: GamePath) -> (state: GameState)
        ensures
            state@ == GameStateView::initial(game_path@),
            state@.well_formed(),
    {
        GameState { game_path, challenge: ChallengeInstance::empty(), current_task_index: 0 }
    }

    /// The challenges of the map.
    pub fn game_path(&self) -> (path: &GamePath)
        ensures
            path@ == self@.game_path,
    {
        &self.game_path
    }

    /// The attempt at the active challenge.
    pub fn challenge(&self) -> (challenge: &ChallengeInstance)
        ensures
            challenge@ == self@.challenge,
            self@.well_formed(),
    {
        proof {
            use_type_invariant(self);
        }
        &self.challenge
    }

    /// The position of the question that is asked next.
    pub fn current_task_index(&self) -> (index: usize)
        ensures
            index == self@.current_task_index,
            self@.well_formed(),
    {
        proof {
            use_type_invariant(self);
        }
        self.current_task_index
    }

    /// Tells where the attempt at the active challenge stands.
    pub fn session_state(&self) -> (session: SessionState)
        ensures
            session == self@.session(),
            session == SessionState::Completed <==> self@.current_task_index
                == self@.questions().len(),
    {
        proof {
            use_type_invariant(self);
        }
        if self.current_task_index >= self.challenge.challenge_type.question_count() {
            SessionState::Completed
        } else {
            SessionState::AwaitingAnswer(self.current_task_index)
        }
    }

    /// The question that is asked next; none once the challenge is completed.
    pub fn current_question(&self) -> (found: Option<&Question>)
        ensures
            match found {
                Some(question) => !self@.is_completed() && question@
                    == self@.questions()[self@.current_task_index as int],
                None => self@.is_completed(),
            },
    {
        self.challenge.challenge_type.question(self.current_task_index)
    }

    /// Judges the answers given so far to the active challenge and scores
    /// them. A challenge without questions has no score.
    pub fn evaluate_current_challenge(&self) -> (outcome: Result<
        (Vec<Evaluated>, Score),
        CoreError,
    >)
        ensures
            match outcome {
                Ok((evaluated, score)) => {
                    &&& 0 < self@.questions().len()
                    &&& views(evaluated@) == self@.evaluated()
                    &&& evaluated@.len() == self@.current_task_index
                    &&& score@.correct == self@.correct_answers()
                    &&& score@.total == self@.questions().len()
                },
                Err(error) => error == CoreError::EmptyQuestionSet && self@.questions().len()
                    == 0,
            },
    {
        proof {
            use_type_invariant(self);
        }
        let score = match score(&self.challenge.challenge_type, &self.challenge.challenge_result) {
            Ok(score) => score,
            Err(error) => {
                return Err(error);
            },
        };
        let evaluated = evaluate(&self.challenge.challenge_type, &self.challenge.challenge_result);
        Ok((evaluated, score))
    }

    /// Tells where each challenge of the path is drawn in a window of the
    /// given size, in the order of the path. A challenge without a position
    /// counts as sitting at the origin of the map.
    pub fn map_layout(&self, window_width: u32, window_height: u32) -> (outcome: Result<
        Vec<PixelPosition>,
        CoreError,
    >)
        ensures
            match spec_layout(self@.nodes(), window_width, window_height) {
                Ok(placed) => outcome matches Ok(positions) && views(positions@) == placed,
                Err(error) => outcome == Err::<Vec<PixelPosition>, CoreError>(error),
            },
    {
        let mut nodes: Vec<(i32, i32)> = Vec::new();
        let mut i: usize = 0;
        while i < self.game_path.challenges.len()
            invariant
                i <= self.game_path.challenges.len(),
                nodes@.len() == i,
                forall|k: int| 0 <= k < i ==> #[trigger] nodes@[k] == self@.nodes()[k],
            decreases self.game_path.challenges.len() - i,
        {
            nodes.push(self.game_path.challenges[i].node());
            i += 1;
        }
        assert(nodes@ =~= self@.nodes());
        layout(nodes.as_slice(), window_width, window_height)
    }

    /// Answers the current question with the option at `option_index`. On
    /// failure the state stays as it was.
    pub fn solve_option(&mut self, option_index: usize) -> (outcome: Result<(), CoreError>)
        ensures
            match old(self)@.solve_option(option_index) {
                Ok(next) => outcome == Ok::<(), CoreError>(()) && final(self)@ == next,
                Err(error) => outcome == Err::<(), CoreError>(error) && final(self)@ == old(self)@,
            },
            final(self)@.well_formed(),
    {
        proof {
            use_type_invariant(&*self);
        }
        let id = match self.challenge.challenge_type.option(option_index) {
            Some(option) => option.id,
            None => {
                return Err(CoreError::InvalidOptionIndex);
            },
        };
        if self.current_task_index >= self.challenge.challenge_type.question_count() {
            return Err(CoreError::ChallengeAlreadyCompleted);
        }
        let mut taken = GameState::default();
        std::mem::swap(self, &mut taken);
        let GameState { game_path, mut challenge, current_task_index } = taken;
        challenge.challenge_result.push(SubmittedOption { id });
        *self = GameState { game_path, challenge, current_task_index: current_task_index + 1 };
        Ok(())
    }

    /// Starts a fresh attempt at the challenge with the given id, with the
    /// dataset that the host has loaded for it. On failure the state stays
    /// as it was.
    pub fn create_challenge(
        &mut self,
        challenge_id: &String,
        dataset: ChallengeDataset,
    ) -> (outcome: Result<(), CoreError>)
        ensures
            match old(self)@.create_challenge(challenge_id@, dataset@) {
                Ok(next) => outcome == Ok::<(), CoreError>(()) && final(self)@ == next,
                Err(error) => outcome == Err::<(), CoreError>(error) && final(self)@ == old(self)@,
            },
            final(self)@.well_formed(),
    {
        proof {
            use_type_invariant(&*self);
        }
        let index = match self.game_path.find(challenge_id) {
            Some(index) => index,
            None => {
                return Err(CoreError::ChallengeNotFound);
            },
        };
        proof {
            lemma_first_with_id(self@.game_path, challenge_id@, index as int);
        }
        let config = self.game_path.challenges[index].clone();
        let mut taken = GameState::default();
        std::mem::swap(self, &mut taken);
        let GameState { game_path, challenge: _, current_task_index: _ } = taken;
        *self = GameState {
            game_path,
            challenge: ChallengeInstance::fresh(config, dataset),
            current_task_index: 0,
        };
        Ok(())
    }
}

impl GameStateView {
    /// What answering with the options at the given indices, one after the
    /// other, leads to. The first refusal ends the run.
    pub open spec fn solve_options(self, option_indices: Seq<usize>) -> Result<
        GameStateView,
        CoreError,
    >
        decreases option_indices.len(),
    {
        if option_indices.len() == 0 {
            Ok(self)
        } else {
            match self.solve_option(option_indices[0]) {
                Ok(next) => next.solve_options(option_indices.drop_first()),
                Err(error) => Err(error),
            }
        }
    }
}

/// An accepted answer keeps the state well formed, moves on by one
/// question, and touches neither the path nor the challenge's questions and
/// options.
pub proof fn lemma_solve_option_advances(state: GameStateView, option_index: usize)
    requires
        state.well_formed(),
    ensures
        match state.solve_option(option_index) {
            Ok(next) => {
                &&& next.well_formed()
                &&& next.current_task_index == state.current_task_index + 1
                &&& next.submitted() == state.submitted().push(
                    SubmittedOption { id: state.options()[option_index as int].id },
                )
                &&& next.game_path == state.game_path
                &&& next.challenge.challenge_type == state.challenge.challenge_type
                &&& next.challenge.challenge_config == state.challenge.challenge_config
            },
            Err(error) => {
                &&& error == CoreError::InvalidOptionIndex <==> option_index
                    >= state.options().len()
                &&& error == CoreError::ChallengeAlreadyCompleted <==> option_index
                    < state.options().len() && state.current_task_index
                    == state.questions().len()
            },
        },
{
}

/// An accepted answer adds exactly one verdict, that on the question which
/// was current, and leaves the verdicts before it as they were: what is
/// evaluated keeps step with what has been answered.
pub proof fn lemma_answer_adds_one_verdict(state: GameStateView, option_index: usize)
    requires
        state.well_formed(),
        state.solve_option(option_index) is Ok,
    ensures
        ({
            let next = state.solve_option(option_index)->Ok_0;
            let asked = state.questions()[state.current_task_index as int];
            next.evaluated() == state.evaluated().push(
                EvaluatedView {
                    question_text: asked.question,
                    correct: asked.correct_option_id == state.options()[option_index as int].id,
                },
            )
        }),
        state.evaluated().len() == state.current_task_index,
{
    let next = state.solve_option(option_index)->Ok_0;
    let asked = state.questions()[state.current_task_index as int];
    assert(next.evaluated() =~= state.evaluated().push(
        EvaluatedView {
            question_text: asked.question,
            correct: asked.correct_option_id == state.options()[option_index as int].id,
        },
    ));
}

/// A challenge that has been created is a fresh attempt: the state is well
/// formed, nothing has been answered, the first question is the current
/// one, and the path is the one that was there before.
pub proof fn lemma_created_challenge_is_fresh(
    state: GameStateView,
    challenge_id: Seq<char>,
    dataset: ChallengeDatasetView,
)
    requires
        state.create_challenge(challenge_id, dataset) is Ok,
    ensures
        ({
            let next = state.create_challenge(challenge_id, dataset)->Ok_0;
            &&& next.well_formed()
            &&& next.current_task_index == 0
            &&& next.submitted().len() == 0
            &&& next.game_path == state.game_path
            &&& next.challenge.challenge_type == dataset
            &&& next.challenge.challenge_config.id == challenge_id
            &&& next.session() == if dataset.questions().len() == 0 {
                SessionState::Completed
            } else {
                SessionState::AwaitingAnswer(0)
            }
        }),
{
    lemma_first_with_id_exists(state.game_path, challenge_id);
}

/// Answering every open question with an option of the dataset completes
/// the challenge: no answer is refused, the task index ends at the number
/// of questions, the answers stand in the order given, and one more answer
/// is refused.
pub proof fn lemma_answering_all_completes(state: GameStateView, option_indices: Seq<usize>)
    requires
        state.well_formed(),
        state.current_task_index + option_indices.len() == state.questions().len(),
        forall|i: int|
            0 <= i < option_indices.len() ==> (#[trigger] option_indices[i])
                < state.options().len(),
    ensures
        state.solve_options(option_indices) matches Ok(end) && {
            &&& end.well_formed()
            &&& end.session() == SessionState::Completed
            &&& end.current_task_index == state.questions().len()
            &&& end.questions() == state.questions()
            &&& end.submitted() == state.submitted() + option_indices.map_values(
                |index: usize| SubmittedOption { id: state.options()[index as int].id },
            )
            &&& forall|option_index: usize|
                option_index < state.options().len() ==> #[trigger] end.solve_option(option_index)
                    == Err::<GameStateView, CoreError>(CoreError::ChallengeAlreadyCompleted)
        },
    decreases option_indices.len(),
{
    let answers = option_indices.map_values(
        |index: usize| SubmittedOption { id: state.options()[index as int].id },
    );
    if option_indices.len() == 0 {
        assert(state.submitted() + answers =~= state.submitted());
    } else {
        let first = option_indices[0];
        let rest = option_indices.drop_first();
        assert(first < state.options().len());
        lemma_solve_option_advances(state, first);
        let next = state.solve_option(first)->Ok_0;
        assert forall|i: int| 0 <= i < rest.len() implies (#[trigger] rest[i])
            < next.options().len() by {
            assert(rest[i] == option_indices[i + 1]);
        }
        lemma_answering_all_completes(next, rest);
        let later = rest.map_values(
            |index: usize| SubmittedOption { id: next.options()[index as int].id },
        );
        assert(state.submitted() + answers =~= next.submitted() + later);
    }
}

} // verus!
