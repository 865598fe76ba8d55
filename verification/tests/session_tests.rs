use coding_tutor::models::{Challenge, Message, MessageRole, SessionState, TeachingPhase};
use coding_tutor::session::SessionStore;

fn fresh_session(id: u128) -> SessionState {
    SessionState {
        session_id: id,
        current_lesson_id: "01-intro".to_string(),
        teaching_phase: TeachingPhase::Introduction,
        conversation_history: Vec::new(),
        current_challenge: None,
        completed_exercises: Vec::new(),
        code_history: Vec::new(),
    }
}

#[test]
fn create_read_and_replace() {
    let mut store = SessionStore::new();
    assert_eq!(store.len(), 0);
    assert!(!store.contains(1));
    store.create_or_replace(fresh_session(1));
    assert!(store.contains(1));
    assert_eq!(store.len(), 1);
    let s = store.get(1).unwrap();
    assert_eq!(s.current_lesson_id, "01-intro");

    let mut replacement = fresh_session(1);
    replacement.teaching_phase = TeachingPhase::Teaching;
    store.create_or_replace(replacement);
    assert_eq!(store.len(), 1);
    let s = store.get(1).unwrap();
    assert!(matches!(s.teaching_phase, TeachingPhase::Teaching));
}

#[test]
fn reads_hand_out_detached_snapshots() {
    let mut store = SessionStore::new();
    store.create_or_replace(fresh_session(1));
    let snapshot = store.get(1).unwrap();
    store.append_message(
        1,
        Message {
            role: MessageRole::Student,
            content: "hello".to_string(),
            timestamp: 5,
        },
    );
    assert_eq!(snapshot.conversation_history.len(), 0);
    assert_eq!(store.get(1).unwrap().conversation_history.len(), 1);
}

#[test]
fn mutations_on_missing_sessions_are_no_ops() {
    let mut store = SessionStore::new();
    store.append_message(
        9,
        Message {
            role: MessageRole::System,
            content: "lost".to_string(),
            timestamp: 1,
        },
    );
    store.replace_phase(9, TeachingPhase::Mastery);
    store.replace_challenge(9, None);
    store.append_code(9, "x = 1".to_string());
    assert_eq!(store.len(), 0);
}

#[test]
fn phase_and_challenge_replacement() {
    let mut store = SessionStore::new();
    store.create_or_replace(fresh_session(2));
    store.replace_phase(2, TeachingPhase::Challenge);
    store.replace_challenge(
        2,
        Some(Challenge {
            description: "sum a list".to_string(),
            validation_hints: Vec::new(),
            hints_given: 0,
            walkthrough_used: false,
        }),
    );
    let s = store.get(2).unwrap();
    assert!(matches!(s.teaching_phase, TeachingPhase::Challenge));
    assert_eq!(s.current_challenge.unwrap().description, "sum a list");

    store.replace_challenge(2, None);
    assert!(store.get(2).unwrap().current_challenge.is_none());
}

#[test]
fn code_history_accumulates() {
    let mut store = SessionStore::new();
    store.create_or_replace(fresh_session(3));
    store.append_code(3, "a".to_string());
    store.append_code(3, "b".to_string());
    assert_eq!(
        store.get(3).unwrap().code_history,
        vec!["a".to_string(), "b".to_string()]
    );
}
