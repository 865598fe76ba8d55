//! The deterministic heuristic grader: a rule-based grader used whenever
//! no external reasoning service is configured or reachable. It scores a
//! submission by three presence signals and maps the score to a four-level
//! quality rating and a pass/fail objectives verdict.

use vstd::prelude::*;
use vstd::string::StringExecFns;

use crate::models::AIReview;
use crate::models::CodeQuality;
use crate::models::Lesson;
use crate::text::chars_of;
use crate::text::contains_str;
use crate::text::contains_sub;
use crate::text::is_multi_line;
use crate::text::lower_of;
use crate::text::lowercase;
use crate::text::multi_line;
use crate::text::split_lines;
use crate::text::split_lines_str;
use crate::text::trim_str;
use crate::text::trimmed;

verus! {

/// The suggestion attached to a submission under ten characters.
pub open spec fn short_code_suggestion() -> Seq<char> {
    "Your code seems quite short. Make sure you've completed all the requirements."@
}

/// The suggestion attached when a function is asked for but none is defined.
pub open spec fn needs_function_suggestion() -> Seq<char> {
    "This lesson requires defining a function. Consider using 'def' to create one."@
}

/// The submission is shorter than ten characters.
pub open spec fn short_code(code: Seq<char>) -> bool {
    code.len() < 10
}

/// The submission contains a function-definition construct.
pub open spec fn has_def(code: Seq<char>) -> bool {
    contains_sub(code, "def "@)
}

/// Some stated objective of the lesson mentions "function",
/// case-insensitively.
pub open spec fn objectives_mention_function(objs: Seq<Seq<char>>) -> bool {
    exists|i: int| 0 <= i < objs.len() && contains_sub(lower_of(objs[i]), "function"@)
}

/// The heuristic score, zero to three: one point each for length at or
/// above ten characters, a function definition, and multi-line structure.
pub open spec fn review_score(code: Seq<char>, objs: Seq<Seq<char>>) -> int {
    (if !short_code(code) {
        1int
    } else {
        0int
    }) + (if has_def(code) {
        1int
    } else {
        0int
    }) + (if multi_line(code) {
        1int
    } else {
        0int
    })
}

/// The quality rating for a heuristic score.
pub open spec fn quality_of_score(score: int) -> CodeQuality {
    if score >= 3 {
        CodeQuality::Excellent
    } else if score == 2 {
        CodeQuality::Good
    } else if score == 1 {
        CodeQuality::NeedsImprovement
    } else {
        CodeQuality::Poor
    }
}

/// The suggestions the heuristic attaches, in order.
pub open spec fn review_suggestions(code: Seq<char>, objs: Seq<Seq<char>>) -> Seq<Seq<char>> {
    (if short_code(code) {
        seq![short_code_suggestion()]
    } else {
        Seq::<Seq<char>>::empty()
    }) + (if !has_def(code) && objectives_mention_function(objs) {
        seq![needs_function_suggestion()]
    } else {
        Seq::<Seq<char>>::empty()
    })
}

/// The feedback line of a heuristic review for a lesson title.
pub open spec fn review_feedback(title: Seq<char>, no_suggestions: bool) -> Seq<char> {
    "Code review for '"@ + title + "': Your code has been submitted. "@ + (if no_suggestions {
        "Keep up the good work!"@
    } else {
        "Here are some suggestions to improve your code."@
    })
}


/// Whether `c` counts as numeric for `char::is_numeric`.
pub uninterp spec fn is_unicode_numeric(c: char) -> bool;

/// Relies on char::is_numeric: the verdict depends on the character alone.
#[verifier::external_body]
fn char_is_numeric(c: char) -> (r: bool)
    ensures
        r == is_unicode_numeric(c),
{
    c.is_numeric()
}

/// The quality rating read from a grader's free-text reply,
/// case-insensitively.
pub open spec fn reply_quality(f: Seq<char>) -> CodeQuality {
    if contains_sub(lower_of(f), "excellent"@) {
        CodeQuality::Excellent
    } else if contains_sub(lower_of(f), "good"@) {
        CodeQuality::Good
    } else if contains_sub(lower_of(f), "needs improvement"@) || contains_sub(
        lower_of(f),
        "poor"@,
    ) {
        CodeQuality::NeedsImprovement
    } else {
        CodeQuality::Good
    }
}

/// Whether a grader's free-text reply says the objectives are met:
/// nothing in it denies that, case-insensitively.
pub open spec fn reply_follows(f: Seq<char>) -> bool {
    !contains_sub(lower_of(f), "does not meet"@) && !contains_sub(lower_of(f), "doesn't meet"@)
}

/// A line carries a suggestion: trimmed, it begins with a dash, a bullet
/// or a numeral.
pub open spec fn is_suggestion_line(l: Seq<char>) -> bool {
    let t = trimmed(l);
    t.len() > 0 && (t[0] == '-' || t[0] == '\u{2022}' || is_unicode_numeric(t[0]))
}

/// The trimmed suggestion lines among `ls`, in order.
pub open spec fn suggestion_lines(ls: Seq<Seq<char>>) -> Seq<Seq<char>>
    decreases ls.len(),
{
    if ls.len() == 0 {
        Seq::empty()
    } else {
        (if is_suggestion_line(ls[0]) {
            seq![trimmed(ls[0])]
        } else {
            Seq::<Seq<char>>::empty()
        }) + suggestion_lines(ls.drop_first())
    }
}

/// Appending one line extends the suggestion list at its end.
proof fn lemma_suggestion_lines_snoc(ls: Seq<Seq<char>>, x: Seq<char>)
    ensures
        suggestion_lines(ls.push(x)) == suggestion_lines(ls) + (if is_suggestion_line(x) {
            seq![trimmed(x)]
        } else {
            Seq::<Seq<char>>::empty()
        }),
    decreases ls.len(),
{
    let p = ls.push(x);
    let head = (if is_suggestion_line(p[0]) {
        seq![trimmed(p[0])]
    } else {
        Seq::<Seq<char>>::empty()
    });
    assert(suggestion_lines(p) == head + suggestion_lines(p.drop_first()));
    if ls.len() == 0 {
        assert(p[0] == x);
        assert(p.drop_first() =~= Seq::<Seq<char>>::empty());
        assert(suggestion_lines(p.drop_first()) =~= Seq::<Seq<char>>::empty());
        assert(suggestion_lines(ls) =~= Seq::<Seq<char>>::empty());
        assert(suggestion_lines(p) =~= suggestion_lines(ls) + (if is_suggestion_line(x) {
            seq![trimmed(x)]
        } else {
            Seq::<Seq<char>>::empty()
        }));
    } else {
        assert(p[0] == ls[0]);
        assert(p.drop_first() =~= ls.drop_first().push(x));
        lemma_suggestion_lines_snoc(ls.drop_first(), x);
        assert(suggestion_lines(ls) == (if is_suggestion_line(ls[0]) {
            seq![trimmed(ls[0])]
        } else {
            Seq::<Seq<char>>::empty()
        }) + suggestion_lines(ls.drop_first()));
        assert(suggestion_lines(p) =~= suggestion_lines(ls) + (if is_suggestion_line(x) {
            seq![trimmed(x)]
        } else {
            Seq::<Seq<char>>::empty()
        }));
    }
}

/// The review assistant. It carries the optional credential for an external
/// reasoning service; the deterministic heuristic below is its fallback and
/// is what this crate verifies. The service call itself is an HTTP edge
/// that lives outside the verified core.
pub struct AIAssistant {
    pub api_key: Option<String>,
}

impl AIAssistant {
    /// A new assistant, remembering whether a service credential exists.
    pub fn new(api_key: Option<String>) -> (r: AIAssistant)
        ensures
            r.api_key == api_key,
    {
        AIAssistant { api_key }
    }


    /// Reads a grader's free-text reply into a structured review: the
    /// quality keyword, the objectives verdict, and the trimmed lines
    /// that look like itemized suggestions.
    pub fn parse_ai_feedback(&self, feedback: &str, _lesson: &Lesson) -> (r: AIReview)
        ensures
            r.feedback@ == feedback@,
            r.code_quality == reply_quality(feedback@),
            r.follows_lesson_objectives == reply_follows(feedback@),
            r.suggestions.deep_view() == suggestion_lines(split_lines(feedback@)),
    {
        let low = lowercase(feedback);
        let code_quality = if contains_str(low.as_str(), "excellent") {
            CodeQuality::Excellent
        } else if contains_str(low.as_str(), "good") {
            CodeQuality::Good
        } else if contains_str(low.as_str(), "needs improvement") || contains_str(
            low.as_str(),
            "poor",
        ) {
            CodeQuality::NeedsImprovement
        } else {
            CodeQuality::Good
        };
        let follows = !contains_str(low.as_str(), "does not meet") && !contains_str(
            low.as_str(),
            "doesn't meet",
        );
        let lines = split_lines_str(feedback);
        let ghost deep = lines.deep_view();
        let mut suggestions: Vec<String> = Vec::new();
        let mut i: usize = 0;
        proof {
            assert(deep.take(0) =~= Seq::<Seq<char>>::empty());
            assert(suggestions.deep_view() =~= suggestion_lines(deep.take(0)));
        }
        while i < lines.len()
            invariant
                i <= lines@.len(),
                deep == lines.deep_view(),
                deep == split_lines(feedback@),
                suggestions.deep_view() == suggestion_lines(deep.take(i as int)),
            decreases lines@.len() - i,
        {
            let t = trim_str(lines[i].as_str());
            proof {
                assert(deep[i as int] == lines@[i as int]@);
            }
            let tc = chars_of(t.as_str());
            let keep = if tc.len() == 0 {
                false
            } else {
                tc[0] == '-' || tc[0] == '\u{2022}' || char_is_numeric(tc[0])
            };
            if keep {
                suggestions.push(t);
            }
            proof {
                lemma_suggestion_lines_snoc(deep.take(i as int), deep[i as int]);
                assert(deep.take(i as int).push(deep[i as int]) =~= deep.take(i as int + 1));
                assert(suggestions.deep_view() =~= suggestion_lines(deep.take(i as int + 1)));
            }
            i = i + 1;
        }
        proof {
            assert(deep.take(deep.len() as int) =~= deep);
        }
        AIReview {
            feedback: String::from_str(feedback),
            suggestions,
            code_quality,
            follows_lesson_objectives: follows,
        }
    }

    /// The deterministic heuristic review of a submission.
    pub fn simple_review(&self, code: &str, lesson: &Lesson) -> (r: AIReview)
        ensures
            r.code_quality == quality_of_score(
                review_score(code@, lesson@.objectives),
            ),
            r.follows_lesson_objectives == (review_score(code@, lesson@.objectives) >= 2),
            r.suggestions.deep_view() == review_suggestions(code@, lesson@.objectives),
            r.feedback@ == review_feedback(
                lesson@.title,
                review_suggestions(code@, lesson@.objectives).len() == 0,
            ),
    {
        let code_chars = chars_of(code);
        let is_short = code_chars.len() < 10;
        let has_def_kw = contains_str(code, "def ");
        let multi = is_multi_line(&code_chars);
        let mentions_fn = objectives_mention_function_exec(&lesson.objectives);

        let mut suggestions: Vec<String> = Vec::new();
        if is_short {
            suggestions.push(
                String::from_str(
                    "Your code seems quite short. Make sure you've completed all the requirements.",
                ),
            );
        }
        if !has_def_kw && mentions_fn {
            suggestions.push(
                String::from_str(
                    "This lesson requires defining a function. Consider using 'def' to create one.",
                ),
            );
        }
        proof {
            assert(suggestions.deep_view() =~= review_suggestions(code@, lesson@.objectives));
        }

        let mut score: u32 = 0;
        if !is_short {
            score = score + 1;
        }
        if has_def_kw {
            score = score + 1;
        }
        if multi {
            score = score + 1;
        }

        let code_quality = if score >= 3 {
            CodeQuality::Excellent
        } else if score == 2 {
            CodeQuality::Good
        } else if score == 1 {
            CodeQuality::NeedsImprovement
        } else {
            CodeQuality::Poor
        };

        let mut feedback = String::from_str("Code review for '");
        feedback.append(lesson.title.as_str());
        feedback.append("': Your code has been submitted. ");
        if suggestions.len() == 0 {
            feedback.append("Keep up the good work!");
        } else {
            feedback.append("Here are some suggestions to improve your code.");
        }

        AIReview {
            feedback,
            suggestions,
            code_quality,
            follows_lesson_objectives: score >= 2,
        }
    }
}

/// Whether any objective mentions "function", case-insensitively.
fn objectives_mention_function_exec(objs: &Vec<String>) -> (r: bool)
    ensures
        r == objectives_mention_function(objs.deep_view()),
{
    let mut i: usize = 0;
    while i < objs.len()
        invariant
            i <= objs@.len(),
            forall|k: int|
                0 <= k < i ==> !contains_sub(lower_of(#[trigger] objs.deep_view()[k]), "function"@),
        decreases objs@.len() - i,
    {
        let low = lowercase(objs[i].as_str());
        if contains_str(low.as_str(), "function") {
            proof {
                assert(objs.deep_view()[i as int] == objs@[i as int]@);
            }
            return true;
        }
        i = i + 1;
    }
    false
}

/// A submission under ten characters always carries at least one
/// suggestion and is never rated `Excellent`.
pub proof fn lemma_short_code_review(code: Seq<char>, objs: Seq<Seq<char>>)
    requires
        code.len() < 10,
    ensures
        review_suggestions(code, objs).len() >= 1,
        quality_of_score(review_score(code, objs)) != CodeQuality::Excellent,
{
}

} // verus!
