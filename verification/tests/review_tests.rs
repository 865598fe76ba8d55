use coding_tutor::models::CodeQuality;
use coding_tutor::models::Exercise;
use coding_tutor::models::Lesson;
use coding_tutor::review::AIAssistant;

fn lesson_with_objectives(objectives: Vec<String>) -> Lesson {
    Lesson {
        id: "basics".to_string(),
        title: "Python Basics".to_string(),
        description: "Variables and functions".to_string(),
        objectives,
        concepts: vec!["variables".to_string()],
        examples: vec!["x = 1".to_string()],
        starter_code: String::new(),
        exercises: Vec::<Exercise>::new(),
        hints: Vec::new(),
    }
}

#[test]
fn short_code_gets_a_suggestion_and_is_never_excellent() {
    let assistant = AIAssistant::new(None);
    let lesson = lesson_with_objectives(vec!["print things".to_string()]);
    let review = assistant.simple_review("x=1", &lesson);
    assert!(review.suggestions.len() >= 1);
    assert!(!matches!(review.code_quality, CodeQuality::Excellent));
}

#[test]
fn three_signals_give_excellent() {
    let assistant = AIAssistant::new(None);
    let lesson = lesson_with_objectives(vec!["write a function".to_string()]);
    let review = assistant.simple_review("def add(a, b):\n    return a + b", &lesson);
    assert!(matches!(review.code_quality, CodeQuality::Excellent));
    assert!(review.follows_lesson_objectives);
    assert!(review.suggestions.is_empty());
    assert_eq!(
        review.feedback,
        "Code review for 'Python Basics': Your code has been submitted. Keep up the good work!"
    );
}

#[test]
fn function_objective_without_def_is_flagged() {
    let assistant = AIAssistant::new(None);
    let lesson = lesson_with_objectives(vec!["write a FUNCTION".to_string()]);
    let review = assistant.simple_review("print(1)\nprint(2)", &lesson);
    assert!(review
        .suggestions
        .iter()
        .any(|s| s.contains("requires defining a function")));
    assert!(matches!(review.code_quality, CodeQuality::Good));
}

#[test]
fn short_single_line_without_function_scores_poor() {
    let assistant = AIAssistant::new(None);
    let lesson = lesson_with_objectives(vec!["write a function".to_string()]);
    let review = assistant.simple_review("x=1", &lesson);
    assert!(matches!(
        review.code_quality,
        CodeQuality::Poor | CodeQuality::NeedsImprovement
    ));
    assert!(!review.follows_lesson_objectives);
    assert_eq!(review.suggestions.len(), 2);
    assert_eq!(
        review.feedback,
        "Code review for 'Python Basics': Your code has been submitted. Here are some suggestions to improve your code."
    );
}

#[test]
fn feedback_quality_keywords_are_read_case_insensitively() {
    let assistant = AIAssistant::new(None);
    let lesson = lesson_with_objectives(vec![]);
    let review = assistant.parse_ai_feedback("The work is EXCELLENT overall.", &lesson);
    assert!(matches!(review.code_quality, CodeQuality::Excellent));
    assert!(review.follows_lesson_objectives);

    let review = assistant.parse_ai_feedback("This needs improvement in places.", &lesson);
    assert!(matches!(review.code_quality, CodeQuality::NeedsImprovement));

    let review = assistant.parse_ai_feedback("Nothing to report.", &lesson);
    assert!(matches!(review.code_quality, CodeQuality::Good));
}

#[test]
fn feedback_denial_clears_objectives_verdict() {
    let assistant = AIAssistant::new(None);
    let lesson = lesson_with_objectives(vec![]);
    let review = assistant.parse_ai_feedback("The code DOES NOT MEET the objectives.", &lesson);
    assert!(!review.follows_lesson_objectives);
}

#[test]
fn itemized_lines_become_suggestions() {
    let assistant = AIAssistant::new(None);
    let lesson = lesson_with_objectives(vec![]);
    let feedback = "Good effort.\n- use better names\n  2. add a docstring\nplain prose line\n\u{2022} split long lines";
    let review = assistant.parse_ai_feedback(feedback, &lesson);
    assert_eq!(
        review.suggestions,
        vec![
            "- use better names".to_string(),
            "2. add a docstring".to_string(),
            "\u{2022} split long lines".to_string(),
        ]
    );
    assert_eq!(review.feedback, feedback);
}
