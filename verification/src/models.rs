//! Plain data types shared by the tutoring core, together with their
//! mathematical models. Each stateful type has a `View` whose fields are
//! sequences and plain values; all contracts speak about these models.

use vstd::prelude::*;

verus! {

/// Who authored a conversation entry.
#[derive(Clone, Copy, Debug, PartialEq, Eq, Structural)]
pub enum MessageRole {
    Tutor,
    Student,
    System,
}

/// The discrete stage of the tutoring dialogue for one session.
#[derive(Clone, Copy, Debug, PartialEq, Eq, Structural)]
pub enum TeachingPhase {
    Introduction,
    Teaching,
    Challenge,
    Helping,
    Walkthrough,
    NewChallenge,
    Mastery,
}

/// Four-level quality rating produced by a code review.
#[derive(Clone, Copy, Debug, PartialEq, Eq, Structural)]
pub enum CodeQuality {
    Excellent,
    Good,
    NeedsImprovement,
    Poor,
}

/// The kind of an inbound tutoring request.
#[derive(Clone, Copy, Debug, PartialEq, Eq, Structural)]
pub enum TutorRequestType {
    StartLesson,
    SendMessage,
    SubmitCode,
    RequestHint,
    RequestWalkthrough,
}

/// One role-tagged entry of a session's conversation history.
#[derive(Clone, Debug)]
pub struct Message {
    pub role: MessageRole,
    pub content: String,
    pub timestamp: u64,
}

/// Mathematical model of a `Message`.
pub ghost struct MessageModel {
    pub role: MessageRole,
    pub content: Seq<char>,
    pub timestamp: u64,
}

impl View for Message {
    type V = MessageModel;

    open spec fn view(&self) -> MessageModel {
        MessageModel { role: self.role, content: self.content@, timestamp: self.timestamp }
    }
}

/// The models of a sequence of messages.
pub open spec fn messages_view(v: Seq<Message>) -> Seq<MessageModel> {
    v.map_values(|m: Message| m@)
}

impl Message {
    /// A copy whose model equals the original's.
    pub fn dup(&self) -> (r: Message)
        ensures
            r@ == self@,
    {
        Message { role: self.role, content: self.content.clone(), timestamp: self.timestamp }
    }
}

/// An active coding task posed to the learner within a session.
#[derive(Clone, Debug)]
pub struct Challenge {
    pub description: String,
    pub validation_hints: Vec<String>,
    pub hints_given: u32,
    pub walkthrough_used: bool,
}

/// Mathematical model of a `Challenge`.
pub ghost struct ChallengeModel {
    pub description: Seq<char>,
    pub validation_hints: Seq<Seq<char>>,
    pub hints_given: u32,
    pub walkthrough_used: bool,
}

impl View for Challenge {
    type V = ChallengeModel;

    open spec fn view(&self) -> ChallengeModel {
        ChallengeModel {
            description: self.description@,
            validation_hints: self.validation_hints.deep_view(),
            hints_given: self.hints_given,
            walkthrough_used: self.walkthrough_used,
        }
    }
}

impl Challenge {
    /// A copy whose model equals the original's.
    pub fn dup(&self) -> (r: Challenge)
        ensures
            r@ == self@,
    {
        let r = Challenge {
            description: self.description.clone(),
            validation_hints: dup_strings(&self.validation_hints),
            hints_given: self.hints_given,
            walkthrough_used: self.walkthrough_used,
        };
        proof {
            assert(r.validation_hints.deep_view() =~= self.validation_hints.deep_view());
        }
        r
    }
}

/// One exercise of a lesson: a task plus the grading code appended to submissions.
#[derive(Clone, Debug)]
pub struct Exercise {
    pub id: String,
    pub description: String,
    pub test_code: String,
    pub solution_example: Option<String>,
}

/// Mathematical model of an `Exercise`.
pub ghost struct ExerciseModel {
    pub id: Seq<char>,
    pub description: Seq<char>,
    pub test_code: Seq<char>,
    pub solution_example: Option<Seq<char>>,
}

impl View for Exercise {
    type V = ExerciseModel;

    open spec fn view(&self) -> ExerciseModel {
        ExerciseModel {
            id: self.id@,
            description: self.description@,
            test_code: self.test_code@,
            solution_example: match self.solution_example {
                Some(s) => Some(s@),
                None => None,
            },
        }
    }
}

/// The models of a sequence of exercises.
pub open spec fn exercises_view(v: Seq<Exercise>) -> Seq<ExerciseModel> {
    v.map_values(|e: Exercise| e@)
}

/// A lesson definition as consumed by the tutoring core.
#[derive(Clone, Debug)]
pub struct Lesson {
    pub id: String,
    pub title: String,
    pub description: String,
    pub objectives: Vec<String>,
    pub concepts: Vec<String>,
    pub examples: Vec<String>,
    pub starter_code: String,
    pub exercises: Vec<Exercise>,
    pub hints: Vec<String>,
}

/// Mathematical model of a `Lesson`.
pub ghost struct LessonModel {
    pub id: Seq<char>,
    pub title: Seq<char>,
    pub description: Seq<char>,
    pub objectives: Seq<Seq<char>>,
    pub concepts: Seq<Seq<char>>,
    pub examples: Seq<Seq<char>>,
    pub starter_code: Seq<char>,
    pub exercises: Seq<ExerciseModel>,
    pub hints: Seq<Seq<char>>,
}

impl View for Lesson {
    type V = LessonModel;

    open spec fn view(&self) -> LessonModel {
        LessonModel {
            id: self.id@,
            title: self.title@,
            description: self.description@,
            objectives: self.objectives.deep_view(),
            concepts: self.concepts.deep_view(),
            examples: self.examples.deep_view(),
            starter_code: self.starter_code@,
            exercises: exercises_view(self.exercises@),
            hints: self.hints.deep_view(),
        }
    }
}

/// A learner's code submission for a lesson.
#[derive(Clone, Debug)]
pub struct CodeSubmission {
    pub code: String,
    pub lesson_id: String,
    pub exercise_id: Option<String>,
}

/// The outcome of one sandboxed execution. Produced exactly once per
/// sandbox invocation and immutable afterwards.
#[derive(Clone, Debug)]
pub struct ExecutionResult {
    pub success: bool,
    pub output: String,
    pub error: Option<String>,
    pub execution_time_ms: u64,
}

/// Mathematical model of an `ExecutionResult`.
pub ghost struct ExecutionResultModel {
    pub success: bool,
    pub output: Seq<char>,
    pub error: Option<Seq<char>>,
    pub execution_time_ms: u64,
}

impl View for ExecutionResult {
    type V = ExecutionResultModel;

    open spec fn view(&self) -> ExecutionResultModel {
        ExecutionResultModel {
            success: self.success,
            output: self.output@,
            error: match self.error {
                Some(s) => Some(s@),
                None => None,
            },
            execution_time_ms: self.execution_time_ms,
        }
    }
}

impl ExecutionResult {
    /// A copy whose model equals the original's.
    pub fn dup(&self) -> (r: ExecutionResult)
        ensures
            r@ == self@,
    {
        ExecutionResult {
            success: self.success,
            output: self.output.clone(),
            error: match &self.error {
                Some(s) => Some(s.clone()),
                None => None,
            },
            execution_time_ms: self.execution_time_ms,
        }
    }
}

/// A structured code review.
#[derive(Clone, Debug)]
pub struct AIReview {
    pub feedback: String,
    pub suggestions: Vec<String>,
    pub code_quality: CodeQuality,
    pub follows_lesson_objectives: bool,
}

/// One learner's ongoing interaction state for a single lesson attempt.
#[derive(Clone, Debug)]
pub struct SessionState {
    pub session_id: u128,
    pub current_lesson_id: String,
    pub teaching_phase: TeachingPhase,
    pub conversation_history: Vec<Message>,
    pub current_challenge: Option<Challenge>,
    pub completed_exercises: Vec<String>,
    pub code_history: Vec<String>,
}

/// Mathematical model of a `SessionState`.
pub ghost struct SessionModel {
    pub session_id: u128,
    pub current_lesson_id: Seq<char>,
    pub teaching_phase: TeachingPhase,
    pub conversation_history: Seq<MessageModel>,
    pub current_challenge: Option<ChallengeModel>,
    pub completed_exercises: Seq<Seq<char>>,
    pub code_history: Seq<Seq<char>>,
}

impl View for SessionState {
    type V = SessionModel;

    open spec fn view(&self) -> SessionModel {
        SessionModel {
            session_id: self.session_id,
            current_lesson_id: self.current_lesson_id@,
            teaching_phase: self.teaching_phase,
            conversation_history: messages_view(self.conversation_history@),
            current_challenge: match self.current_challenge {
                Some(c) => Some(c@),
                None => None,
            },
            completed_exercises: self.completed_exercises.deep_view(),
            code_history: self.code_history.deep_view(),
        }
    }
}

impl SessionState {
    /// A copy whose model equals the original's.
    pub fn dup(&self) -> (r: SessionState)
        ensures
            r@ == self@,
    {
        let r = SessionState {
            session_id: self.session_id,
            current_lesson_id: self.current_lesson_id.clone(),
            teaching_phase: self.teaching_phase,
            conversation_history: dup_messages(&self.conversation_history),
            current_challenge: match &self.current_challenge {
                Some(c) => Some(c.dup()),
                None => None,
            },
            completed_exercises: dup_strings(&self.completed_exercises),
            code_history: dup_strings(&self.code_history),
        };
        proof {
            assert(messages_view(r.conversation_history@) =~= messages_view(
                self.conversation_history@,
            ));
            assert(r.completed_exercises.deep_view() =~= self.completed_exercises.deep_view());
            assert(r.code_history.deep_view() =~= self.code_history.deep_view());
        }
        r
    }
}

/// An inbound tutoring request.
#[derive(Clone, Debug)]
pub struct TutorRequest {
    pub session_id: u128,
    pub lesson_id: String,
    pub message: Option<String>,
    pub code: Option<String>,
    pub request_type: TutorRequestType,
}

/// The learner-visible answer to a tutoring request.
#[derive(Clone, Debug)]
pub struct TutorResponse {
    pub message: String,
    pub phase: TeachingPhase,
    pub code_result: Option<ExecutionResult>,
    pub show_new_challenge: bool,
}

/// Client-visible failures of the tutoring core: unknown identifiers and
/// requests missing a required field. Sandbox infrastructure failures are
/// reported separately by the sandbox lifecycle.
#[derive(Clone, Copy, Debug, PartialEq, Eq, Structural)]
pub enum TutorError {
    SessionNotFound,
    LessonNotFound,
    MissingMessage,
    MissingCode,
}

impl TutorError {
    /// The wording surfaced to the caller for each failure.
    pub fn text(&self) -> (r: &'static str)
        ensures
            *self is SessionNotFound ==> r@ == "Session not found"@,
            *self is LessonNotFound ==> r@ == "Lesson not found"@,
            *self is MissingMessage ==> r@ == "Message is required"@,
            *self is MissingCode ==> r@ == "Code is required"@,
    {
        match self {
            TutorError::SessionNotFound => "Session not found",
            TutorError::LessonNotFound => "Lesson not found",
            TutorError::MissingMessage => "Message is required",
            TutorError::MissingCode => "Code is required",
        }
    }
}

/// Copies a vector of strings, element for element.
pub fn dup_strings(v: &Vec<String>) -> (r: Vec<String>)
    ensures
        r@ == v@,
{
    let mut r: Vec<String> = Vec::with_capacity(v.len());
    let mut i: usize = 0;
    while i < v.len()
        invariant
            i <= v.len(),
            r@ == v@.subrange(0, i as int),
        decreases v.len() - i,
    {
        r.push(v[i].clone());
        i = i + 1;
    }
    proof {
        assert(r@ =~= v@);
    }
    r
}

/// Copies a vector of messages, element for element; the models match.
pub fn dup_messages(v: &Vec<Message>) -> (r: Vec<Message>)
    ensures
        messages_view(r@) == messages_view(v@),
{
    let mut r: Vec<Message> = Vec::with_capacity(v.len());
    let mut i: usize = 0;
    while i < v.len()
        invariant
            i <= v.len(),
            r@.len() == i,
            forall|j: int| 0 <= j < i ==> #[trigger] r@[j]@ == v@[j]@,
        decreases v.len() - i,
    {
        r.push(v[i].dup());
        i = i + 1;
    }
    proof {
        assert forall|j: int| 0 <= j < v@.len() implies messages_view(r@)[j] == messages_view(v@)[j] by {
            assert(r@[j]@ == v@[j]@);
        }
        assert(messages_view(r@) =~= messages_view(v@));
    }
    r
}

} // verus!
