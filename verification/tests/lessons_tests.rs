use coding_tutor::lessons::LessonManager;
use coding_tutor::lessons::str_eq;
use coding_tutor::models::Exercise;
use coding_tutor::models::Lesson;

fn lesson(id: &str, title: &str) -> Lesson {
    Lesson {
        id: id.to_string(),
        title: title.to_string(),
        description: format!("About {title}"),
        objectives: Vec::new(),
        concepts: Vec::new(),
        examples: Vec::new(),
        starter_code: String::new(),
        exercises: Vec::<Exercise>::new(),
        hints: Vec::new(),
    }
}

#[test]
fn lessons_come_back_sorted_by_identifier() {
    let mut m = LessonManager::new();
    m.insert_lesson(lesson("03-loops", "Loops"));
    m.insert_lesson(lesson("01-variables", "Variables"));
    m.insert_lesson(lesson("02-functions", "Functions"));
    let all = m.get_all_lessons();
    let ids: Vec<&str> = all.iter().map(|l| l.id.as_str()).collect();
    assert_eq!(ids, vec!["01-variables", "02-functions", "03-loops"]);
}

#[test]
fn get_lesson_finds_by_identifier() {
    let mut m = LessonManager::new();
    m.insert_lesson(lesson("01-variables", "Variables"));
    assert_eq!(m.get_lesson("01-variables").unwrap().title, "Variables");
    assert!(m.get_lesson("99-missing").is_none());
}

#[test]
fn reinserting_replaces_without_duplicating() {
    let mut m = LessonManager::new();
    m.insert_lesson(lesson("01-variables", "Variables"));
    m.insert_lesson(lesson("01-variables", "Variables, revised"));
    let all = m.get_all_lessons();
    assert_eq!(all.len(), 1);
    assert_eq!(all[0].title, "Variables, revised");
}

#[test]
fn next_lesson_follows_catalogue_order() {
    let mut m = LessonManager::new();
    m.insert_lesson(lesson("01-variables", "Variables"));
    m.insert_lesson(lesson("02-functions", "Functions"));
    let next = m.get_next_lesson("01-variables").unwrap();
    assert_eq!(next.id, "02-functions");
    assert!(m.get_next_lesson("02-functions").is_none());
    assert!(m.get_next_lesson("99-missing").is_none());
}

#[test]
fn first_lesson_is_the_least_identifier() {
    let mut m = LessonManager::new();
    assert!(m.get_first_lesson().is_none());
    m.insert_lesson(lesson("02-functions", "Functions"));
    m.insert_lesson(lesson("01-variables", "Variables"));
    assert_eq!(m.get_first_lesson().unwrap().id, "01-variables");
}

#[test]
fn string_equality_compares_characters() {
    assert!(str_eq("abc", "abc"));
    assert!(!str_eq("abc", "abd"));
    assert!(!str_eq("abc", "ab"));
    assert!(str_eq("", ""));
}
