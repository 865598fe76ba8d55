use coding_tutor::lessons::LessonManager;
use coding_tutor::models::ExecutionResult;
use coding_tutor::models::Exercise;
use coding_tutor::models::Lesson;
use coding_tutor::models::TeachingPhase;
use coding_tutor::models::TutorError;
use coding_tutor::models::TutorRequest;
use coding_tutor::models::TutorRequestType;
use coding_tutor::tutor::InteractiveTutor;
use coding_tutor::tutor::parse_mastery_reply;

fn one_lesson_manager() -> LessonManager {
    let mut m = LessonManager::new();
    m.insert_lesson(Lesson {
        id: "fn-01".to_string(),
        title: "Functions".to_string(),
        description: "Defining functions".to_string(),
        objectives: vec!["write a function".to_string()],
        concepts: vec!["def".to_string()],
        examples: vec!["def f(): pass".to_string()],
        starter_code: String::new(),
        exercises: Vec::<Exercise>::new(),
        hints: Vec::new(),
    });
    m
}

fn ok_exec(output: &str) -> ExecutionResult {
    ExecutionResult {
        success: true,
        output: output.to_string(),
        error: None,
        execution_time_ms: 3,
    }
}

fn failed_exec(err: &str) -> ExecutionResult {
    ExecutionResult {
        success: false,
        output: String::new(),
        error: Some(err.to_string()),
        execution_time_ms: 3,
    }
}

#[test]
fn start_lesson_resets_session_and_introduces() {
    let mut tutor = InteractiveTutor::new(one_lesson_manager());
    let resp = tutor.start_lesson(1, "fn-01", 100, None).expect("lesson exists");
    assert!(matches!(resp.phase, TeachingPhase::Introduction));
    assert!(!resp.show_new_challenge);
    assert_eq!(
        resp.message,
        "Welcome to Functions!\n\nDefining functions\n\nIn this lesson, you'll learn:\n\u{2022} write a function\n\nAre you ready to get started?"
    );
    let s = tutor.sessions.get(1).expect("session created");
    assert_eq!(s.conversation_history.len(), 1);
    assert!(s.current_challenge.is_none());
}

#[test]
fn unknown_lesson_is_a_not_found_error() {
    let mut tutor = InteractiveTutor::new(one_lesson_manager());
    let err = tutor.start_lesson(1, "missing", 100, None).unwrap_err();
    assert!(matches!(err, TutorError::LessonNotFound));
    assert_eq!(err.text(), "Lesson not found");
}

#[test]
fn unknown_session_is_a_not_found_error() {
    let mut tutor = InteractiveTutor::new(one_lesson_manager());
    let err = tutor.handle_message(9, "hi", 100, None).unwrap_err();
    assert!(matches!(err, TutorError::SessionNotFound));
    assert_eq!(err.text(), "Session not found");
}

#[test]
fn missing_fields_are_validation_errors() {
    let mut tutor = InteractiveTutor::new(one_lesson_manager());
    tutor.start_lesson(1, "fn-01", 100, None).unwrap();
    let req = TutorRequest {
        session_id: 1,
        lesson_id: "fn-01".to_string(),
        message: None,
        code: None,
        request_type: TutorRequestType::SendMessage,
    };
    let err = tutor.handle_request(&req, 101, None, None).unwrap_err();
    assert!(matches!(err, TutorError::MissingMessage));
    let req = TutorRequest {
        session_id: 1,
        lesson_id: "fn-01".to_string(),
        message: None,
        code: None,
        request_type: TutorRequestType::SubmitCode,
    };
    let err = tutor.handle_request(&req, 101, None, None).unwrap_err();
    assert!(matches!(err, TutorError::MissingCode));
}

#[test]
fn challenge_marker_in_reply_poses_a_challenge() {
    let mut tutor = InteractiveTutor::new(one_lesson_manager());
    tutor.start_lesson(1, "fn-01", 100, None).unwrap();
    let reply = "Here is a CHALLENGE: write a greeting function.".to_string();
    let resp = tutor
        .handle_message(1, "I think I got it", 101, Some(reply.clone()))
        .unwrap();
    assert!(matches!(resp.phase, TeachingPhase::Introduction));
    assert_eq!(resp.message, reply);
    let s = tutor.sessions.get(1).unwrap();
    assert!(matches!(s.teaching_phase, TeachingPhase::Challenge));
    let c = s.current_challenge.expect("challenge posed");
    assert_eq!(c.description, reply);
    assert_eq!(c.hints_given, 0);
    assert!(!c.walkthrough_used);
}

#[test]
fn plain_teaching_reply_poses_no_challenge() {
    let mut tutor = InteractiveTutor::new(one_lesson_manager());
    tutor.start_lesson(1, "fn-01", 100, None).unwrap();
    let resp = tutor
        .handle_message(1, "tell me more", 101, Some("Functions group code.".to_string()))
        .unwrap();
    assert_eq!(resp.message, "Functions group code.");
    let s = tutor.sessions.get(1).unwrap();
    assert!(matches!(s.teaching_phase, TeachingPhase::Introduction));
    assert!(s.current_challenge.is_none());
}

#[test]
fn two_hints_accumulate_to_two() {
    let mut tutor = InteractiveTutor::new(one_lesson_manager());
    tutor.start_lesson(1, "fn-01", 100, None).unwrap();
    tutor
        .handle_message(1, "ready", 101, Some("Your task: greet the user.".to_string()))
        .unwrap();
    let r1 = tutor.request_hint(1, 102, None).unwrap();
    assert!(matches!(r1.phase, TeachingPhase::Helping));
    let r2 = tutor.request_hint(1, 103, None).unwrap();
    assert!(matches!(r2.phase, TeachingPhase::Helping));
    assert_eq!(
        r2.message,
        "Try breaking down the problem into smaller steps. What's the first thing you need to do?"
    );
    let s = tutor.sessions.get(1).unwrap();
    assert_eq!(s.current_challenge.unwrap().hints_given, 2);
    assert!(matches!(s.teaching_phase, TeachingPhase::Helping));
}

#[test]
fn walkthrough_then_success_yields_a_different_new_challenge() {
    let mut tutor = InteractiveTutor::new(one_lesson_manager());
    tutor.start_lesson(1, "fn-01", 100, None).unwrap();
    tutor
        .handle_message(1, "ready", 101, Some("Your task: greet the user.".to_string()))
        .unwrap();
    let r1 = tutor.request_walkthrough(1, 102, None).unwrap();
    assert!(matches!(r1.phase, TeachingPhase::Walkthrough));
    assert!(r1.show_new_challenge);
    let s = tutor.sessions.get(1).unwrap();
    assert!(s.current_challenge.as_ref().unwrap().walkthrough_used);
    assert!(matches!(s.teaching_phase, TeachingPhase::Walkthrough));

    let r2 = tutor
        .handle_code_submission(1, "def greet(): print('hi')", 103, &ok_exec("hi"), None)
        .unwrap();
    assert!(matches!(r2.phase, TeachingPhase::NewChallenge));
    assert!(r2.show_new_challenge);
    assert_ne!(r2.message, "Your task: greet the user.");
    let s = tutor.sessions.get(1).unwrap();
    assert!(matches!(s.teaching_phase, TeachingPhase::NewChallenge));
    let c = s.current_challenge.unwrap();
    assert_ne!(c.description, "Your task: greet the user.");
    assert!(!c.walkthrough_used);
    assert_eq!(c.hints_given, 0);
}

#[test]
fn failed_execution_returns_to_challenge_with_error_surfaced() {
    let mut tutor = InteractiveTutor::new(one_lesson_manager());
    tutor.start_lesson(1, "fn-01", 100, None).unwrap();
    let resp = tutor
        .handle_code_submission(1, "oops(", 101, &failed_exec("SyntaxError"), None)
        .unwrap();
    assert!(matches!(resp.phase, TeachingPhase::Challenge));
    assert!(!resp.show_new_challenge);
    assert!(resp.message.contains("SyntaxError"));
    let er = resp.code_result.expect("execution result echoed");
    assert!(!er.success);
    let s = tutor.sessions.get(1).unwrap();
    assert!(matches!(s.teaching_phase, TeachingPhase::Challenge));
    assert_eq!(s.code_history, vec!["oops(".to_string()]);
}

#[test]
fn fallback_mastery_on_successful_execution() {
    let mut tutor = InteractiveTutor::new(one_lesson_manager());
    tutor.start_lesson(1, "fn-01", 100, None).unwrap();
    let resp = tutor
        .handle_code_submission(1, "print('hi')", 101, &ok_exec("hi\n"), None)
        .unwrap();
    assert!(matches!(resp.phase, TeachingPhase::Mastery));
    assert!(!resp.show_new_challenge);
    assert_eq!(
        resp.message,
        "Great job! Your code works! Output:\nhi\n\n\nYou've demonstrated understanding of this lesson!"
    );
    let s = tutor.sessions.get(1).unwrap();
    assert!(matches!(s.teaching_phase, TeachingPhase::Mastery));
    assert!(s.current_challenge.is_none());
}

#[test]
fn service_verdict_without_mastery_keeps_the_challenge() {
    let mut tutor = InteractiveTutor::new(one_lesson_manager());
    tutor.start_lesson(1, "fn-01", 100, None).unwrap();
    tutor
        .handle_message(1, "ready", 101, Some("Try to greet the user.".to_string()))
        .unwrap();
    let reply = "MASTERY: NO\nFEEDBACK:\nAlmost there, name the function.".to_string();
    let resp = tutor
        .handle_code_submission(1, "print('hi')", 102, &ok_exec("hi"), Some(reply))
        .unwrap();
    assert!(matches!(resp.phase, TeachingPhase::Challenge));
    assert_eq!(resp.message, "Almost there, name the function.");
    let s = tutor.sessions.get(1).unwrap();
    assert!(matches!(s.teaching_phase, TeachingPhase::Challenge));
    assert!(s.current_challenge.is_some());
}

#[test]
fn parse_mastery_reply_reads_verdict_and_feedback() {
    let (mastered, fb) = parse_mastery_reply("mastery: yes\nFEEDBACK: \nWell done!\nKeep going.");
    assert!(mastered);
    assert_eq!(fb, "Well done!\nKeep going.");

    let (mastered, fb) = parse_mastery_reply("MASTERY: NO\nno marker here");
    assert!(!mastered);
    assert_eq!(fb, "");
}

#[test]
fn message_outside_teaching_phases_asks_for_code() {
    let mut tutor = InteractiveTutor::new(one_lesson_manager());
    tutor.start_lesson(1, "fn-01", 100, None).unwrap();
    tutor
        .handle_code_submission(1, "print('hi')", 101, &ok_exec("hi"), None)
        .unwrap();
    let resp = tutor.handle_message(1, "what now?", 102, None).unwrap();
    assert_eq!(resp.message, "Please submit your code to continue.");
    assert!(matches!(resp.phase, TeachingPhase::Mastery));
}

#[test]
fn socratic_fallback_while_challenge_pending() {
    let mut tutor = InteractiveTutor::new(one_lesson_manager());
    tutor.start_lesson(1, "fn-01", 100, None).unwrap();
    tutor
        .handle_message(1, "ready", 101, Some("Your task: greet the user.".to_string()))
        .unwrap();
    let resp = tutor.handle_message(1, "I'm stuck", 102, None).unwrap();
    assert_eq!(
        resp.message,
        "Think about the problem step by step. What do you need to do first?"
    );
}

#[test]
fn restarting_a_lesson_resets_history_and_challenge() {
    let mut tutor = InteractiveTutor::new(one_lesson_manager());
    tutor.start_lesson(1, "fn-01", 100, None).unwrap();
    tutor
        .handle_message(1, "ready", 101, Some("Your task: greet the user.".to_string()))
        .unwrap();
    let s = tutor.sessions.get(1).unwrap();
    assert!(s.current_challenge.is_some());
    assert!(s.conversation_history.len() > 1);

    tutor.start_lesson(1, "fn-01", 200, None).unwrap();
    let s = tutor.sessions.get(1).unwrap();
    assert!(matches!(s.teaching_phase, TeachingPhase::Introduction));
    assert!(s.current_challenge.is_none());
    assert_eq!(s.conversation_history.len(), 1);
    assert_eq!(s.conversation_history[0].timestamp, 200);
}

#[test]
fn hint_without_pending_challenge_changes_no_state() {
    let mut tutor = InteractiveTutor::new(one_lesson_manager());
    tutor.start_lesson(1, "fn-01", 100, None).unwrap();
    let resp = tutor.request_hint(1, 101, None).unwrap();
    assert!(matches!(resp.phase, TeachingPhase::Helping));
    let s = tutor.sessions.get(1).unwrap();
    assert!(matches!(s.teaching_phase, TeachingPhase::Introduction));
    assert!(s.current_challenge.is_none());
    assert_eq!(s.conversation_history.len(), 2);
}

#[test]
fn dispatcher_runs_a_full_lesson_cycle() {
    let mut tutor = InteractiveTutor::new(one_lesson_manager());
    let start = TutorRequest {
        session_id: 7,
        lesson_id: "fn-01".to_string(),
        message: None,
        code: None,
        request_type: TutorRequestType::StartLesson,
    };
    let resp = tutor.handle_request(&start, 100, None, None).unwrap();
    assert!(matches!(resp.phase, TeachingPhase::Introduction));

    let message = TutorRequest {
        session_id: 7,
        lesson_id: "fn-01".to_string(),
        message: Some("ready".to_string()),
        code: None,
        request_type: TutorRequestType::SendMessage,
    };
    tutor
        .handle_request(&message, 101, None, Some("Try to greet the user.".to_string()))
        .unwrap();

    let submit = TutorRequest {
        session_id: 7,
        lesson_id: "fn-01".to_string(),
        message: None,
        code: Some("print('hi')".to_string()),
        request_type: TutorRequestType::SubmitCode,
    };
    let exec = ok_exec("hi");
    let resp = tutor.handle_request(&submit, 102, Some(&exec), None).unwrap();
    assert!(matches!(resp.phase, TeachingPhase::Mastery));
    assert!(resp.code_result.is_some());
}
