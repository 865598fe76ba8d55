//! The interactive tutor: a per-learner session state machine. Each
//! request kind is one transaction from the stored session state (and the
//! inputs a driver supplies: the clock, the sandbox outcome, and any text
//! an external reasoning service produced) to the next state and the
//! learner-visible response. When no service text is supplied — because no
//! service is configured or because it failed — the deterministic fallback
//! texts below are used; a service failure is thereby recovered locally
//! and never surfaced to the learner.

use vstd::prelude::*;
use vstd::string::StringExecFns;

use crate::lessons::LessonManager;
use crate::lessons::str_eq;
use crate::models::Challenge;
use crate::models::ChallengeModel;
use crate::models::ExecutionResult;
use crate::models::ExecutionResultModel;
use crate::models::Lesson;
use crate::models::LessonModel;
use crate::models::Message;
use crate::models::MessageModel;
use crate::models::MessageRole;
use crate::models::SessionModel;
use crate::models::SessionState;
use crate::models::TeachingPhase;
use crate::models::TutorError;
use crate::models::TutorRequest;
use crate::models::TutorRequestType;
use crate::models::TutorResponse;
use crate::session::SessionStore;
use crate::session::updated_at;
use crate::session::with_challenge;
use crate::session::with_code;
use crate::session::with_message;
use crate::session::with_phase;
use crate::text::after_marker;
use crate::text::contains_str;
use crate::text::contains_sub;
use crate::text::has_prefix;
use crate::text::has_prefix_str;
use crate::text::join_nl;
use crate::text::lemma_after_marker_at;
use crate::text::lemma_join_nl_snoc;
use crate::text::lower_of;
use crate::text::lowercase;
use crate::text::split_lines;
use crate::text::split_lines_str;
use crate::text::trim_str;
use crate::text::trimmed;
use crate::text::upper_of;
use crate::text::uppercase;

verus! {

/// The Socratic fallback while a challenge is pending.
pub open spec fn socratic_fallback() -> Seq<char> {
    "Think about the problem step by step. What do you need to do first?"@
}

/// The fallback hint.
pub open spec fn hint_fallback() -> Seq<char> {
    "Try breaking down the problem into smaller steps. What's the first thing you need to do?"@
}

/// The fallback walkthrough.
pub open spec fn walkthrough_fallback() -> Seq<char> {
    "Let me walk you through this step by step. Since I've helped you through this, I'll give you a new challenge to demonstrate your understanding."@
}

/// The fallback text of a replacement challenge.
pub open spec fn new_challenge_fallback() -> Seq<char> {
    "Great! Now try creating a similar solution but for a different scenario. You've got this!"@
}

/// The reply outside every teaching or challenge phase.
pub open spec fn submit_code_prompt() -> Seq<char> {
    "Please submit your code to continue."@
}

/// The bulleted objective list of the introduction, one objective per line.
pub open spec fn bullet_list(objs: Seq<Seq<char>>) -> Seq<char>
    decreases objs.len(),
{
    if objs.len() == 0 {
        Seq::empty()
    } else if objs.len() == 1 {
        "\u{2022} "@ + objs[0]
    } else {
        "\u{2022} "@ + objs[0] + "\n"@ + bullet_list(objs.drop_first())
    }
}

/// Appending one objective extends the bulleted list at its end.
proof fn lemma_bullet_list_snoc(objs: Seq<Seq<char>>, x: Seq<char>)
    ensures
        bullet_list(objs.push(x)) == if objs.len() == 0 {
            "\u{2022} "@ + x
        } else {
            bullet_list(objs) + "\n"@ + "\u{2022} "@ + x
        },
    decreases objs.len(),
{
    let p = objs.push(x);
    if objs.len() == 0 {
        assert(p.len() == 1);
        assert(p[0] == x);
        assert(bullet_list(p) =~= "\u{2022} "@ + x);
    } else {
        assert(p.drop_first() =~= objs.drop_first().push(x));
        lemma_bullet_list_snoc(objs.drop_first(), x);
        if objs.len() == 1 {
            assert(objs.drop_first().len() == 0);
            assert(bullet_list(p) =~= bullet_list(objs) + "\n"@ + "\u{2022} "@ + x);
        } else {
            assert(bullet_list(p) =~= bullet_list(objs) + "\n"@ + "\u{2022} "@ + x);
        }
    }
}

/// The lesson introduction used when no reasoning service reply exists.
pub open spec fn intro_text(l: LessonModel) -> Seq<char> {
    "Welcome to "@ + l.title + "!\n\n"@ + l.description + "\n\nIn this lesson, you'll learn:\n"@
        + bullet_list(l.objectives) + "\n\nAre you ready to get started?"@
}

/// The teaching reply used when no reasoning service reply exists.
pub open spec fn teaching_fallback(l: LessonModel) -> Seq<char> {
    "Let's learn about "@ + l.title + ". Try writing some code to practice the concepts."@
}

/// The feedback on a failed execution, surfacing the captured error.
pub open spec fn error_feedback(err: Option<Seq<char>>) -> Seq<char> {
    "Your code has an error:\n"@ + (match err {
        Some(e) => e,
        None => "Unknown error"@,
    })
        + "\n\nDon't worry! Errors are part of learning. Can you figure out what went wrong? I'm here to help if you need it."@
}

/// The fallback mastery feedback, echoing the captured stdout.
pub open spec fn mastery_fallback(output: Seq<char>) -> Seq<char> {
    "Great job! Your code works! Output:\n"@ + output
        + "\n\nYou've demonstrated understanding of this lesson!"@
}

/// Whether a teaching reply announces a challenge: it contains one of the
/// challenge-announcement markers, case-insensitively.
pub open spec fn offers_challenge(reply: Seq<char>) -> bool {
    contains_sub(lower_of(reply), "challenge"@) || contains_sub(lower_of(reply), "try to"@)
        || contains_sub(lower_of(reply), "your task"@)
}

/// Whether `reply` announces a challenge.
pub fn detect_challenge_offer(reply: &str) -> (r: bool)
    ensures
        r == offers_challenge(reply@),
{
    let low = lowercase(reply);
    contains_str(low.as_str(), "challenge") || contains_str(low.as_str(), "try to")
        || contains_str(low.as_str(), "your task")
}

/// The suffix that keeps a replacement challenge from repeating the
/// previous one verbatim.
pub open spec fn variation_suffix() -> Seq<char> {
    "\n\nThis time, work with a different scenario than before."@
}

/// A replacement-challenge text, never textually identical to the
/// previous description: a repeating generator gets a variation suffix.
pub open spec fn distinct_text(candidate: Seq<char>, prev: Seq<char>) -> Seq<char> {
    if candidate != prev {
        candidate
    } else {
        candidate + variation_suffix()
    }
}

/// The replacement text always differs from the previous description.
pub proof fn lemma_distinct_text(candidate: Seq<char>, prev: Seq<char>)
    ensures
        distinct_text(candidate, prev) != prev,
{
    reveal_strlit("\n\nThis time, work with a different scenario than before.");
    if candidate == prev {
        assert(distinct_text(candidate, prev).len() > prev.len());
    }
}

/// Makes `candidate` textually distinct from `prev`.
fn make_distinct(candidate: String, prev: &str) -> (r: String)
    ensures
        r@ == distinct_text(candidate@, prev@),
        r@ != prev@,
{
    proof {
        lemma_distinct_text(candidate@, prev@);
    }
    if str_eq(candidate.as_str(), prev) {
        let mut r = candidate;
        r.append("\n\nThis time, work with a different scenario than before.");
        r
    } else {
        candidate
    }
}

/// A message model authored by the tutor.
pub open spec fn tutor_msg(text: Seq<char>, now: u64) -> MessageModel {
    MessageModel { role: MessageRole::Tutor, content: text, timestamp: now }
}

/// A message model authored by the student.
pub open spec fn student_msg(text: Seq<char>, now: u64) -> MessageModel {
    MessageModel { role: MessageRole::Student, content: text, timestamp: now }
}

/// The model of a freshly posed challenge.
pub open spec fn fresh_challenge(desc: Seq<char>) -> ChallengeModel {
    ChallengeModel {
        description: desc,
        validation_hints: Seq::empty(),
        hints_given: 0,
        walkthrough_used: false,
    }
}

/// The view of an optional service text.
pub open spec fn opt_text(o: Option<String>) -> Option<Seq<char>> {
    match o {
        Some(t) => Some(t@),
        None => None,
    }
}

/// The model of a brand-new session for one lesson, whose history holds
/// the introduction alone.
pub open spec fn fresh_session(sid: u128, lid: Seq<char>, intro: Seq<char>, now: u64) -> SessionModel {
    SessionModel {
        session_id: sid,
        current_lesson_id: lid,
        teaching_phase: TeachingPhase::Introduction,
        conversation_history: seq![tutor_msg(intro, now)],
        current_challenge: None,
        completed_exercises: Seq::empty(),
        code_history: Seq::empty(),
    }
}

/// Builds the fallback introduction for a lesson.
fn build_intro(lesson: &Lesson) -> (r: String)
    ensures
        r@ == intro_text(lesson@),
{
    let mut r = String::from_str("Welcome to ");
    r.append(lesson.title.as_str());
    r.append("!\n\n");
    r.append(lesson.description.as_str());
    r.append("\n\nIn this lesson, you'll learn:\n");
    let mut i: usize = 0;
    let mut bullets = String::new();
    while i < lesson.objectives.len()
        invariant
            i <= lesson.objectives@.len(),
            bullets@ == bullet_list(lesson@.objectives.take(i as int)),
        decreases lesson.objectives@.len() - i,
    {
        if i > 0 {
            bullets.append("\n");
        }
        bullets.append("\u{2022} ");
        bullets.append(lesson.objectives[i].as_str());
        proof {
            let objs = lesson@.objectives;
            assert(objs.take(i as int).push(objs[i as int]) =~= objs.take(i as int + 1));
            lemma_bullet_list_snoc(objs.take(i as int), objs[i as int]);
            assert(bullets@ =~= bullet_list(objs.take(i as int + 1)));
        }
        i = i + 1;
    }
    proof {
        assert(lesson@.objectives.take(lesson.objectives@.len() as int) =~= lesson@.objectives);
    }
    r.append(bullets.as_str());
    r.append("\n\nAre you ready to get started?");
    proof {
        assert(r@ =~= intro_text(lesson@));
    }
    r
}

/// Builds the fallback teaching reply for a lesson.
fn build_teaching_fallback(lesson: &Lesson) -> (r: String)
    ensures
        r@ == teaching_fallback(lesson@),
{
    let mut r = String::from_str("Let's learn about ");
    r.append(lesson.title.as_str());
    r.append(". Try writing some code to practice the concepts.");
    proof {
        assert(r@ =~= teaching_fallback(lesson@));
    }
    r
}

/// Builds the feedback on a failed execution.
fn build_error_feedback(exec: &ExecutionResult) -> (r: String)
    ensures
        r@ == error_feedback(exec@.error),
{
    let mut r = String::from_str("Your code has an error:\n");
    match &exec.error {
        Some(e) => r.append(e.as_str()),
        None => r.append("Unknown error"),
    }
    r.append(
        "\n\nDon't worry! Errors are part of learning. Can you figure out what went wrong? I'm here to help if you need it.",
    );
    proof {
        assert(r@ =~= error_feedback(exec@.error));
    }
    r
}

/// Builds the fallback mastery feedback.
fn build_mastery_fallback(exec: &ExecutionResult) -> (r: String)
    ensures
        r@ == mastery_fallback(exec@.output),
{
    let mut r = String::from_str("Great job! Your code works! Output:\n");
    r.append(exec.output.as_str());
    r.append("\n\nYou've demonstrated understanding of this lesson!");
    proof {
        assert(r@ =~= mastery_fallback(exec@.output));
    }
    r
}



/// Whether a reasoning-service evaluation reports mastery.
pub open spec fn mastery_of(reply: Seq<char>) -> bool {
    contains_sub(upper_of(reply), "MASTERY: YES"@)
}

/// The feedback portion of a reasoning-service evaluation: the lines
/// after the first one that begins with the feedback marker, joined and
/// trimmed.
pub open spec fn feedback_of(reply: Seq<char>) -> Seq<char> {
    trimmed(join_nl(after_marker(split_lines(reply), "FEEDBACK:"@)))
}

/// Parses a reasoning-service evaluation into the mastery verdict and
/// the feedback text.
pub fn parse_mastery_reply(reply: &str) -> (r: (bool, String))
    ensures
        r.0 == mastery_of(reply@),
        r.1@ == feedback_of(reply@),
{
    let up = uppercase(reply);
    let mastered = contains_str(up.as_str(), "MASTERY: YES");
    let lines = split_lines_str(reply);
    let ghost deep = lines.deep_view();
    let n = lines.len();
    let mut i: usize = 0;
    while i < n && !has_prefix_str(lines[i].as_str(), "FEEDBACK:")
        invariant
            i <= n,
            n == deep.len(),
            deep == lines.deep_view(),
            deep == split_lines(reply@),
            forall|k: int| 0 <= k < i ==> !has_prefix(#[trigger] deep[k], "FEEDBACK:"@),
        decreases n - i,
    {
        proof {
            assert(deep[i as int] == lines@[i as int]@);
        }
        i = i + 1;
    }
    proof {
        assert(i < n ==> deep[i as int] == lines@[i as int]@);
        lemma_after_marker_at(deep, "FEEDBACK:"@, i as int);
    }
    let mut joined = String::new();
    if i < n {
        let mut j = i + 1;
        proof {
            assert(joined@ =~= join_nl(deep.subrange(i as int + 1, i as int + 1)));
        }
        while j < n
            invariant
                i < n,
                i + 1 <= j <= n,
                n == deep.len(),
                deep == lines.deep_view(),
                joined@ == join_nl(deep.subrange(i as int + 1, j as int)),
            decreases n - j,
        {
            if j > i + 1 {
                joined.append("\n");
            }
            joined.append(lines[j].as_str());
            proof {
                let part = deep.subrange(i as int + 1, j as int);
                assert(deep[j as int] == lines@[j as int]@);
                lemma_join_nl_snoc(part, deep[j as int]);
                assert(part.push(deep[j as int]) =~= deep.subrange(i as int + 1, j as int + 1));
                assert(joined@ =~= join_nl(deep.subrange(i as int + 1, j as int + 1)));
            }
            j = j + 1;
        }
        proof {
            assert(deep.subrange(i as int + 1, n as int) =~= after_marker(deep, "FEEDBACK:"@));
        }
    } else {
        proof {
            assert(after_marker(deep, "FEEDBACK:"@) =~= Seq::<Seq<char>>::empty());
            assert(joined@ =~= join_nl(after_marker(deep, "FEEDBACK:"@)));
        }
    }
    let fb = trim_str(joined.as_str());
    (mastered, fb)
}

/// What `handle_message` guarantees. The student's message is recorded
/// first, so it survives even a failed lesson lookup. In the teaching
/// phases the (service or fallback) reply is checked for
/// challenge-announcement markers, and on a match the reply becomes the
/// new pending challenge and the stored phase moves to `Challenge`; with
/// a pending challenge the reply is Socratic guidance; in every other
/// phase the learner is asked to submit code. The response reports the
/// phase the session was in when the message arrived.
pub open spec fn message_post(
    t0: InteractiveTutor,
    t1: InteractiveTutor,
    sid: u128,
    text: Seq<char>,
    now: u64,
    reply: Option<Seq<char>>,
    r: Result<TutorResponse, TutorError>,
) -> bool {
    &&& t1.lesson_manager == t0.lesson_manager
    &&& match r {
        Err(e) => {
            &&& (e == TutorError::SessionNotFound || e == TutorError::LessonNotFound)
            &&& (e == TutorError::SessionNotFound <==> !t0.sessions@.contains_key(sid))
            &&& e == TutorError::SessionNotFound ==> t1.sessions@ == t0.sessions@
            &&& e == TutorError::LessonNotFound ==> {
                &&& !t0.lesson_manager.lessons_map().contains_key(
                    t0.sessions@[sid]@.current_lesson_id,
                )
                &&& updated_at(
                    t0.sessions@,
                    t1.sessions@,
                    sid,
                    with_message(t0.sessions@[sid]@, student_msg(text, now)),
                )
            }
        },
        Ok(resp) => {
            let s0 = t0.sessions@[sid]@;
            let s1 = with_message(s0, student_msg(text, now));
            let l = t0.lesson_manager.lessons_map()[s0.current_lesson_id]@;
            &&& t0.sessions@.contains_key(sid)
            &&& t0.lesson_manager.lessons_map().contains_key(s0.current_lesson_id)
            &&& resp.phase == s0.teaching_phase
            &&& resp.code_result is None
            &&& !resp.show_new_challenge
            &&& match s0.teaching_phase {
                TeachingPhase::Introduction | TeachingPhase::Teaching => {
                    let rep = match reply {
                        Some(t) => t,
                        None => teaching_fallback(l),
                    };
                    &&& resp.message@ == rep
                    &&& if offers_challenge(rep) {
                        updated_at(
                            t0.sessions@,
                            t1.sessions@,
                            sid,
                            with_phase(
                                with_challenge(
                                    with_message(s1, tutor_msg(rep, now)),
                                    Some(fresh_challenge(rep)),
                                ),
                                TeachingPhase::Challenge,
                            ),
                        )
                    } else {
                        updated_at(t0.sessions@, t1.sessions@, sid, with_message(s1, tutor_msg(rep, now)))
                    }
                },
                TeachingPhase::Challenge | TeachingPhase::NewChallenge => {
                    let rep = match reply {
                        Some(t) => t,
                        None => socratic_fallback(),
                    };
                    &&& resp.message@ == rep
                    &&& updated_at(t0.sessions@, t1.sessions@, sid, with_message(s1, tutor_msg(rep, now)))
                },
                _ => {
                    &&& resp.message@ == submit_code_prompt()
                    &&& updated_at(
                        t0.sessions@,
                        t1.sessions@,
                        sid,
                        with_message(s1, tutor_msg(submit_code_prompt(), now)),
                    )
                },
            }
        },
    }
}

/// What `handle_code_submission` guarantees, the submission decision of
/// the teaching state machine. The submitted code joins the code
/// history. A failed execution returns the session to `Challenge` with
/// the captured error surfaced. A successful one after a walkthrough
/// poses a replacement challenge — never textually identical to the
/// previous one — in phase `NewChallenge`. Otherwise the (service or
/// fallback) evaluation decides: mastery ends the challenge cycle in
/// phase `Mastery` with the challenge cleared, and anything else keeps
/// the learner in `Challenge` with constructive feedback. Without a
/// service, every successful non-post-walkthrough run reports mastery.
pub open spec fn submit_post(
    t0: InteractiveTutor,
    t1: InteractiveTutor,
    sid: u128,
    code: Seq<char>,
    now: u64,
    exec: ExecutionResultModel,
    assist: Option<Seq<char>>,
    r: Result<TutorResponse, TutorError>,
) -> bool {
    &&& t1.lesson_manager == t0.lesson_manager
    &&& match r {
        Err(e) => {
            &&& t1.sessions@ == t0.sessions@
            &&& (e == TutorError::SessionNotFound || e == TutorError::LessonNotFound)
            &&& (e == TutorError::SessionNotFound <==> !t0.sessions@.contains_key(sid))
            &&& e == TutorError::LessonNotFound ==> !t0.lesson_manager.lessons_map().contains_key(
                t0.sessions@[sid]@.current_lesson_id,
            )
        },
        Ok(resp) => {
            let s0 = t0.sessions@[sid]@;
            let sc = with_code(s0, code);
            let walk = match s0.current_challenge {
                Some(c) => c.walkthrough_used,
                None => false,
            };
            &&& t0.sessions@.contains_key(sid)
            &&& t0.lesson_manager.lessons_map().contains_key(s0.current_lesson_id)
            &&& (resp.code_result matches Some(er) && er@ == exec)
            &&& if !exec.success {
                let fb = error_feedback(exec.error);
                &&& resp.message@ == fb
                &&& resp.phase == TeachingPhase::Challenge
                &&& !resp.show_new_challenge
                &&& updated_at(
                    t0.sessions@,
                    t1.sessions@,
                    sid,
                    with_phase(with_message(sc, tutor_msg(fb, now)), TeachingPhase::Challenge),
                )
            } else if walk {
                match s0.current_challenge {
                    Some(c0) => {
                        let cand = match assist {
                            Some(t) => t,
                            None => new_challenge_fallback(),
                        };
                        let msg = distinct_text(cand, c0.description);
                        &&& resp.message@ == msg
                        &&& msg != c0.description
                        &&& resp.phase == TeachingPhase::NewChallenge
                        &&& resp.show_new_challenge
                        &&& updated_at(
                            t0.sessions@,
                            t1.sessions@,
                            sid,
                            with_phase(
                                with_challenge(
                                    with_message(sc, tutor_msg(msg, now)),
                                    Some(fresh_challenge(msg)),
                                ),
                                TeachingPhase::NewChallenge,
                            ),
                        )
                    },
                    None => false,
                }
            } else {
                let mastered = match assist {
                    Some(t) => mastery_of(t),
                    None => true,
                };
                let fb = match assist {
                    Some(t) => feedback_of(t),
                    None => mastery_fallback(exec.output),
                };
                &&& resp.message@ == fb
                &&& !resp.show_new_challenge
                &&& if mastered {
                    &&& resp.phase == TeachingPhase::Mastery
                    &&& updated_at(
                        t0.sessions@,
                        t1.sessions@,
                        sid,
                        with_phase(
                            with_challenge(with_message(sc, tutor_msg(fb, now)), None),
                            TeachingPhase::Mastery,
                        ),
                    )
                } else {
                    &&& resp.phase == TeachingPhase::Challenge
                    &&& updated_at(
                        t0.sessions@,
                        t1.sessions@,
                        sid,
                        with_phase(with_message(sc, tutor_msg(fb, now)), TeachingPhase::Challenge),
                    )
                }
            }
        },
    }
}

/// The interactive tutor: the session store and the lesson catalogue.
pub struct InteractiveTutor {
    pub sessions: SessionStore,
    pub lesson_manager: LessonManager,
}

/// What `start_lesson` guarantees: an unknown lesson is refused with the
/// store untouched; otherwise the session is created afresh — any earlier
/// state under the same identifier is discarded — holding the
/// introduction as its only history entry, and the response carries that
/// introduction in phase `Introduction`.
pub open spec fn start_lesson_post(
    t0: InteractiveTutor,
    t1: InteractiveTutor,
    sid: u128,
    lid: Seq<char>,
    now: u64,
    intro: Option<Seq<char>>,
    r: Result<TutorResponse, TutorError>,
) -> bool {
    &&& t1.lesson_manager == t0.lesson_manager
    &&& match r {
        Err(e) => {
            &&& e == TutorError::LessonNotFound
            &&& !t0.lesson_manager.lessons_map().contains_key(lid)
            &&& t1.sessions@ == t0.sessions@
        },
        Ok(resp) => {
            let msg = match intro {
                Some(t) => t,
                None => intro_text(t0.lesson_manager.lessons_map()[lid]@),
            };
            &&& t0.lesson_manager.lessons_map().contains_key(lid)
            &&& resp.message@ == msg
            &&& resp.phase == TeachingPhase::Introduction
            &&& resp.code_result is None
            &&& !resp.show_new_challenge
            &&& t1.sessions@.dom() == t0.sessions@.dom().insert(sid)
            &&& t1.sessions@.contains_key(sid)
            &&& t1.sessions@[sid]@ == fresh_session(sid, lid, msg, now)
            &&& forall|k: u128|
                k != sid && t0.sessions@.contains_key(k) ==> t1.sessions@[k] == t0.sessions@[k]
        },
    }
}

/// What `request_hint` guarantees: with a pending challenge, exactly one
/// more hint is recorded and the phase becomes `Helping`; without one,
/// only the hint message is appended. The response always reports phase
/// `Helping` and never a new challenge.
pub open spec fn hint_post(
    t0: InteractiveTutor,
    t1: InteractiveTutor,
    sid: u128,
    now: u64,
    hint: Option<Seq<char>>,
    r: Result<TutorResponse, TutorError>,
) -> bool {
    &&& t1.lesson_manager == t0.lesson_manager
    &&& match r {
        Err(e) => {
            &&& t1.sessions@ == t0.sessions@
            &&& (e == TutorError::SessionNotFound || e == TutorError::LessonNotFound)
            &&& (e == TutorError::SessionNotFound <==> !t0.sessions@.contains_key(sid))
            &&& e == TutorError::LessonNotFound ==> !t0.lesson_manager.lessons_map().contains_key(
                t0.sessions@[sid]@.current_lesson_id,
            )
        },
        Ok(resp) => {
            let s0 = t0.sessions@[sid]@;
            let msg = match hint {
                Some(t) => t,
                None => hint_fallback(),
            };
            &&& t0.sessions@.contains_key(sid)
            &&& t0.lesson_manager.lessons_map().contains_key(s0.current_lesson_id)
            &&& resp.message@ == msg
            &&& resp.phase == TeachingPhase::Helping
            &&& resp.code_result is None
            &&& !resp.show_new_challenge
            &&& match s0.current_challenge {
                Some(c) => updated_at(
                    t0.sessions@,
                    t1.sessions@,
                    sid,
                    with_phase(
                        with_challenge(
                            with_message(s0, tutor_msg(msg, now)),
                            Some(ChallengeModel { hints_given: (c.hints_given + 1) as u32, ..c }),
                        ),
                        TeachingPhase::Helping,
                    ),
                ),
                None => updated_at(
                    t0.sessions@,
                    t1.sessions@,
                    sid,
                    with_message(s0, tutor_msg(msg, now)),
                ),
            }
        },
    }
}

/// What `request_walkthrough` guarantees: the walkthrough is delivered,
/// the phase becomes `Walkthrough`, a pending challenge is marked as
/// walked through, and the response signals that the next successful
/// submission will require a new challenge.
pub open spec fn walkthrough_post(
    t0: InteractiveTutor,
    t1: InteractiveTutor,
    sid: u128,
    now: u64,
    text: Option<Seq<char>>,
    r: Result<TutorResponse, TutorError>,
) -> bool {
    &&& t1.lesson_manager == t0.lesson_manager
    &&& match r {
        Err(e) => {
            &&& t1.sessions@ == t0.sessions@
            &&& (e == TutorError::SessionNotFound || e == TutorError::LessonNotFound)
            &&& (e == TutorError::SessionNotFound <==> !t0.sessions@.contains_key(sid))
            &&& e == TutorError::LessonNotFound ==> !t0.lesson_manager.lessons_map().contains_key(
                t0.sessions@[sid]@.current_lesson_id,
            )
        },
        Ok(resp) => {
            let s0 = t0.sessions@[sid]@;
            let msg = match text {
                Some(t) => t,
                None => walkthrough_fallback(),
            };
            &&& t0.sessions@.contains_key(sid)
            &&& t0.lesson_manager.lessons_map().contains_key(s0.current_lesson_id)
            &&& resp.message@ == msg
            &&& resp.phase == TeachingPhase::Walkthrough
            &&& resp.code_result is None
            &&& resp.show_new_challenge
            &&& match s0.current_challenge {
                Some(c) => updated_at(
                    t0.sessions@,
                    t1.sessions@,
                    sid,
                    with_phase(
                        with_challenge(
                            with_message(s0, tutor_msg(msg, now)),
                            Some(ChallengeModel { walkthrough_used: true, ..c }),
                        ),
                        TeachingPhase::Walkthrough,
                    ),
                ),
                None => updated_at(
                    t0.sessions@,
                    t1.sessions@,
                    sid,
                    with_phase(with_message(s0, tutor_msg(msg, now)), TeachingPhase::Walkthrough),
                ),
            }
        },
    }
}

impl InteractiveTutor {
    /// A tutor over the given lesson catalogue, with no sessions yet.
    pub fn new(lesson_manager: LessonManager) -> (r: InteractiveTutor)
        ensures
            r.sessions@ == Map::<u128, SessionState>::empty(),
            r.lesson_manager == lesson_manager,
    {
        InteractiveTutor { sessions: SessionStore::new(), lesson_manager }
    }

    /// Starts (or restarts) a lesson for a session: the conversation
    /// history is reset and any pending challenge is cleared.
    pub fn start_lesson(
        &mut self,
        session_id: u128,
        lesson_id: &str,
        now: u64,
        intro: Option<String>,
    ) -> (r: Result<TutorResponse, TutorError>)
        ensures
            start_lesson_post(
                *old(self),
                *final(self),
                session_id,
                lesson_id@,
                now,
                opt_text(intro),
                r,
            ),
    {
        let lesson = match self.lesson_manager.get_lesson(lesson_id) {
            Some(l) => l,
            None => {
                return Err(TutorError::LessonNotFound);
            },
        };
        let msg = match intro {
            Some(t) => t,
            None => build_intro(lesson),
        };
        let mut history: Vec<Message> = Vec::new();
        history.push(Message { role: MessageRole::Tutor, content: msg.clone(), timestamp: now });
        let session = SessionState {
            session_id,
            current_lesson_id: String::from_str(lesson_id),
            teaching_phase: TeachingPhase::Introduction,
            conversation_history: history,
            current_challenge: None,
            completed_exercises: Vec::new(),
            code_history: Vec::new(),
        };
        proof {
            assert(crate::models::messages_view(session.conversation_history@) =~= seq![
                tutor_msg(msg@, now),
            ]);
            assert(session.completed_exercises.deep_view() =~= Seq::<Seq<char>>::empty());
            assert(session.code_history.deep_view() =~= Seq::<Seq<char>>::empty());
            assert(session@ == fresh_session(session_id, lesson_id@, msg@, now));
        }
        self.sessions.create_or_replace(session);
        proof {
            assert(self.sessions@.dom() =~= old(self).sessions@.dom().insert(session_id));
        }
        Ok(
            TutorResponse {
                message: msg,
                phase: TeachingPhase::Introduction,
                code_result: None,
                show_new_challenge: false,
            },
        )
    }

    /// Provides a hint: with a pending challenge the hint counter rises
    /// by exactly one and the phase becomes `Helping`.
    pub fn request_hint(&mut self, session_id: u128, now: u64, hint: Option<String>) -> (r: Result<
        TutorResponse,
        TutorError,
    >)
        requires
            old(self).sessions@.contains_key(session_id) ==> (match old(
                self,
            ).sessions@[session_id]@.current_challenge {
                Some(c) => c.hints_given < u32::MAX,
                None => true,
            }),
        ensures
            hint_post(*old(self), *final(self), session_id, now, opt_text(hint), r),
    {
        let snap = match self.sessions.get(session_id) {
            Some(s) => s,
            None => {
                return Err(TutorError::SessionNotFound);
            },
        };
        if self.lesson_manager.get_lesson(snap.current_lesson_id.as_str()).is_none() {
            return Err(TutorError::LessonNotFound);
        }
        let msg = match hint {
            Some(t) => t,
            None => String::from_str(
                "Try breaking down the problem into smaller steps. What's the first thing you need to do?",
            ),
        };
        match &snap.current_challenge {
            Some(c) => {
                let updated = Challenge {
                    description: c.description.clone(),
                    validation_hints: crate::models::dup_strings(&c.validation_hints),
                    hints_given: c.hints_given + 1,
                    walkthrough_used: c.walkthrough_used,
                };
                self.sessions.append_message(
                    session_id,
                    Message { role: MessageRole::Tutor, content: msg.clone(), timestamp: now },
                );
                self.sessions.replace_challenge(session_id, Some(updated));
                self.sessions.replace_phase(session_id, TeachingPhase::Helping);
            },
            None => {
                self.sessions.append_message(
                    session_id,
                    Message { role: MessageRole::Tutor, content: msg.clone(), timestamp: now },
                );
            },
        }
        Ok(
            TutorResponse {
                message: msg,
                phase: TeachingPhase::Helping,
                code_result: None,
                show_new_challenge: false,
            },
        )
    }

    /// Provides a walkthrough: the phase becomes `Walkthrough`, a pending
    /// challenge is marked as walked through, and the learner is told
    /// that the next submission brings a new challenge.
    pub fn request_walkthrough(
        &mut self,
        session_id: u128,
        now: u64,
        text: Option<String>,
    ) -> (r: Result<TutorResponse, TutorError>)
        ensures
            walkthrough_post(*old(self), *final(self), session_id, now, opt_text(text), r),
    {
        let snap = match self.sessions.get(session_id) {
            Some(s) => s,
            None => {
                return Err(TutorError::SessionNotFound);
            },
        };
        if self.lesson_manager.get_lesson(snap.current_lesson_id.as_str()).is_none() {
            return Err(TutorError::LessonNotFound);
        }
        let msg = match text {
            Some(t) => t,
            None => String::from_str(
                "Let me walk you through this step by step. Since I've helped you through this, I'll give you a new challenge to demonstrate your understanding.",
            ),
        };
        match &snap.current_challenge {
            Some(c) => {
                let updated = Challenge {
                    description: c.description.clone(),
                    validation_hints: crate::models::dup_strings(&c.validation_hints),
                    hints_given: c.hints_given,
                    walkthrough_used: true,
                };
                self.sessions.append_message(
                    session_id,
                    Message { role: MessageRole::Tutor, content: msg.clone(), timestamp: now },
                );
                self.sessions.replace_challenge(session_id, Some(updated));
                self.sessions.replace_phase(session_id, TeachingPhase::Walkthrough);
            },
            None => {
                self.sessions.append_message(
                    session_id,
                    Message { role: MessageRole::Tutor, content: msg.clone(), timestamp: now },
                );
                self.sessions.replace_phase(session_id, TeachingPhase::Walkthrough);
            },
        }
        Ok(
            TutorResponse {
                message: msg,
                phase: TeachingPhase::Walkthrough,
                code_result: None,
                show_new_challenge: true,
            },
        )
    }

    /// Handles a free-form student message.
    pub fn handle_message(
        &mut self,
        session_id: u128,
        text: &str,
        now: u64,
        reply: Option<String>,
    ) -> (r: Result<TutorResponse, TutorError>)
        ensures
            message_post(*old(self), *final(self), session_id, text@, now, opt_text(reply), r),
    {
        let snap = match self.sessions.get(session_id) {
            Some(s) => s,
            None => {
                return Err(TutorError::SessionNotFound);
            },
        };
        self.sessions.append_message(
            session_id,
            Message {
                role: MessageRole::Student,
                content: String::from_str(text),
                timestamp: now,
            },
        );
        let lesson = match self.lesson_manager.get_lesson(snap.current_lesson_id.as_str()) {
            Some(l) => l,
            None => {
                return Err(TutorError::LessonNotFound);
            },
        };
        let rep: String = match snap.teaching_phase {
            TeachingPhase::Introduction | TeachingPhase::Teaching => {
                let rep = match reply {
                    Some(t) => t,
                    None => build_teaching_fallback(lesson),
                };
                if detect_challenge_offer(rep.as_str()) {
                    let ch = Challenge {
                        description: rep.clone(),
                        validation_hints: Vec::new(),
                        hints_given: 0,
                        walkthrough_used: false,
                    };
                    proof {
                        assert(ch@.validation_hints =~= Seq::<Seq<char>>::empty());
                        assert(ch@ == fresh_challenge(rep@));
                    }
                    self.sessions.replace_challenge(session_id, Some(ch));
                    self.sessions.replace_phase(session_id, TeachingPhase::Challenge);
                }
                rep
            },
            TeachingPhase::Challenge | TeachingPhase::NewChallenge => {
                match reply {
                    Some(t) => t,
                    None => String::from_str(
                        "Think about the problem step by step. What do you need to do first?",
                    ),
                }
            },
            _ => String::from_str("Please submit your code to continue."),
        };
        self.sessions.append_message(
            session_id,
            Message { role: MessageRole::Tutor, content: rep.clone(), timestamp: now },
        );
        Ok(
            TutorResponse {
                message: rep,
                phase: snap.teaching_phase,
                code_result: None,
                show_new_challenge: false,
            },
        )
    }

    /// Handles a code submission, deciding from the sandbox outcome and
    /// any reasoning-service evaluation what the learner sees next.
    pub fn handle_code_submission(
        &mut self,
        session_id: u128,
        code: &str,
        now: u64,
        exec: &ExecutionResult,
        assist: Option<String>,
    ) -> (r: Result<TutorResponse, TutorError>)
        ensures
            submit_post(*old(self), *final(self), session_id, code@, now, exec@, opt_text(assist), r),
    {
        let snap = match self.sessions.get(session_id) {
            Some(s) => s,
            None => {
                return Err(TutorError::SessionNotFound);
            },
        };
        if self.lesson_manager.get_lesson(snap.current_lesson_id.as_str()).is_none() {
            return Err(TutorError::LessonNotFound);
        }
        self.sessions.append_code(session_id, String::from_str(code));
        if !exec.success {
            let fb = build_error_feedback(exec);
            self.sessions.append_message(
                session_id,
                Message { role: MessageRole::Tutor, content: fb.clone(), timestamp: now },
            );
            self.sessions.replace_phase(session_id, TeachingPhase::Challenge);
            return Ok(
                TutorResponse {
                    message: fb,
                    phase: TeachingPhase::Challenge,
                    code_result: Some(exec.dup()),
                    show_new_challenge: false,
                },
            );
        }
        let walkthrough_used = match &snap.current_challenge {
            Some(c) => c.walkthrough_used,
            None => false,
        };
        if walkthrough_used {
            let prev_desc = match &snap.current_challenge {
                Some(c) => c.description.clone(),
                None => String::new(),
            };
            let cand = match assist {
                Some(t) => t,
                None => String::from_str(
                    "Great! Now try creating a similar solution but for a different scenario. You've got this!",
                ),
            };
            let msg = make_distinct(cand, prev_desc.as_str());
            self.sessions.append_message(
                session_id,
                Message { role: MessageRole::Tutor, content: msg.clone(), timestamp: now },
            );
            let ch = Challenge {
                description: msg.clone(),
                validation_hints: Vec::new(),
                hints_given: 0,
                walkthrough_used: false,
            };
            proof {
                assert(ch@.validation_hints =~= Seq::<Seq<char>>::empty());
                assert(ch@ == fresh_challenge(msg@));
            }
            self.sessions.replace_challenge(session_id, Some(ch));
            self.sessions.replace_phase(session_id, TeachingPhase::NewChallenge);
            return Ok(
                TutorResponse {
                    message: msg,
                    phase: TeachingPhase::NewChallenge,
                    code_result: Some(exec.dup()),
                    show_new_challenge: true,
                },
            );
        }
        let (mastered, fb) = match assist {
            Some(t) => {
                let parsed = parse_mastery_reply(t.as_str());
                parsed
            },
            None => (true, build_mastery_fallback(exec)),
        };
        self.sessions.append_message(
            session_id,
            Message { role: MessageRole::Tutor, content: fb.clone(), timestamp: now },
        );
        if mastered {
            self.sessions.replace_challenge(session_id, None);
            self.sessions.replace_phase(session_id, TeachingPhase::Mastery);
            Ok(
                TutorResponse {
                    message: fb,
                    phase: TeachingPhase::Mastery,
                    code_result: Some(exec.dup()),
                    show_new_challenge: false,
                },
            )
        } else {
            self.sessions.replace_phase(session_id, TeachingPhase::Challenge);
            Ok(
                TutorResponse {
                    message: fb,
                    phase: TeachingPhase::Challenge,
                    code_result: Some(exec.dup()),
                    show_new_challenge: false,
                },
            )
        }
    }

    /// Routes one inbound request, validating its required fields: a
    /// `SendMessage` without text and a `SubmitCode` without code are
    /// client errors that leave every session untouched. A `SubmitCode`
    /// with code expects the sandbox outcome of that code from the
    /// driver.
    pub fn handle_request(
        &mut self,
        req: &TutorRequest,
        now: u64,
        exec: Option<&ExecutionResult>,
        assist: Option<String>,
    ) -> (r: Result<TutorResponse, TutorError>)
        requires
            req.request_type is SubmitCode && req.code is Some ==> exec is Some,
            req.request_type is RequestHint && old(self).sessions@.contains_key(req.session_id)
                ==> (match old(self).sessions@[req.session_id]@.current_challenge {
                Some(c) => c.hints_given < u32::MAX,
                None => true,
            }),
        ensures
            match req.request_type {
                TutorRequestType::StartLesson => start_lesson_post(
                    *old(self),
                    *final(self),
                    req.session_id,
                    req.lesson_id@,
                    now,
                    opt_text(assist),
                    r,
                ),
                TutorRequestType::SendMessage => match req.message {
                    Some(m) => message_post(
                        *old(self),
                        *final(self),
                        req.session_id,
                        m@,
                        now,
                        opt_text(assist),
                        r,
                    ),
                    None => r == Result::<TutorResponse, TutorError>::Err(
                        TutorError::MissingMessage,
                    ) && *final(self) == *old(self),
                },
                TutorRequestType::SubmitCode => match req.code {
                    Some(c) => exec matches Some(e) && submit_post(
                        *old(self),
                        *final(self),
                        req.session_id,
                        c@,
                        now,
                        e@,
                        opt_text(assist),
                        r,
                    ),
                    None => r == Result::<TutorResponse, TutorError>::Err(TutorError::MissingCode)
                        && *final(self) == *old(self),
                },
                TutorRequestType::RequestHint => hint_post(
                    *old(self),
                    *final(self),
                    req.session_id,
                    now,
                    opt_text(assist),
                    r,
                ),
                TutorRequestType::RequestWalkthrough => walkthrough_post(
                    *old(self),
                    *final(self),
                    req.session_id,
                    now,
                    opt_text(assist),
                    r,
                ),
            },
    {
        match req.request_type {
            TutorRequestType::StartLesson => self.start_lesson(
                req.session_id,
                req.lesson_id.as_str(),
                now,
                assist,
            ),
            TutorRequestType::SendMessage => match &req.message {
                Some(m) => self.handle_message(req.session_id, m.as_str(), now, assist),
                None => Err(TutorError::MissingMessage),
            },
            TutorRequestType::SubmitCode => match &req.code {
                Some(c) => match exec {
                    Some(e) => self.handle_code_submission(
                        req.session_id,
                        c.as_str(),
                        now,
                        e,
                        assist,
                    ),
                    None => {
                        proof {
                            assert(false);
                        }
                        Err(TutorError::MissingCode)
                    },
                },
                None => Err(TutorError::MissingCode),
            },
            TutorRequestType::RequestHint => self.request_hint(req.session_id, now, assist),
            TutorRequestType::RequestWalkthrough => self.request_walkthrough(
                req.session_id,
                now,
                assist,
            ),
        }
    }
}

/// A healthy session: a pending challenge exists only in the challenge,
/// new-challenge, helping and walkthrough phases.
pub open spec fn session_wf(s: SessionModel) -> bool {
    s.current_challenge is Some ==> (s.teaching_phase is Challenge || s.teaching_phase
        is NewChallenge || s.teaching_phase is Helping || s.teaching_phase is Walkthrough)
}

/// A healthy tutor: every stored session is healthy.
pub open spec fn tutor_wf(t: InteractiveTutor) -> bool {
    forall|sid: u128|
        t.sessions@.contains_key(sid) ==> session_wf(#[trigger] t.sessions@[sid]@)
}

/// Starting a lesson keeps every session healthy: the new session has no
/// pending challenge.
pub proof fn lemma_start_lesson_wf(
    t0: InteractiveTutor,
    t1: InteractiveTutor,
    sid: u128,
    lid: Seq<char>,
    now: u64,
    intro: Option<Seq<char>>,
    r: Result<TutorResponse, TutorError>,
)
    requires
        tutor_wf(t0),
        start_lesson_post(t0, t1, sid, lid, now, intro, r),
    ensures
        tutor_wf(t1),
{
}

/// Handling a message keeps every session healthy: a challenge is posed
/// only together with the move to the challenge phase.
pub proof fn lemma_message_wf(
    t0: InteractiveTutor,
    t1: InteractiveTutor,
    sid: u128,
    text: Seq<char>,
    now: u64,
    reply: Option<Seq<char>>,
    r: Result<TutorResponse, TutorError>,
)
    requires
        tutor_wf(t0),
        message_post(t0, t1, sid, text, now, reply, r),
    ensures
        tutor_wf(t1),
{
}

/// A code submission keeps every session healthy, whichever of the three
/// decision paths was taken.
pub proof fn lemma_submit_wf(
    t0: InteractiveTutor,
    t1: InteractiveTutor,
    sid: u128,
    code: Seq<char>,
    now: u64,
    exec: ExecutionResultModel,
    assist: Option<Seq<char>>,
    r: Result<TutorResponse, TutorError>,
)
    requires
        tutor_wf(t0),
        submit_post(t0, t1, sid, code, now, exec, assist, r),
    ensures
        tutor_wf(t1),
{
}

/// A hint keeps every session healthy.
pub proof fn lemma_hint_wf(
    t0: InteractiveTutor,
    t1: InteractiveTutor,
    sid: u128,
    now: u64,
    hint: Option<Seq<char>>,
    r: Result<TutorResponse, TutorError>,
)
    requires
        tutor_wf(t0),
        hint_post(t0, t1, sid, now, hint, r),
    ensures
        tutor_wf(t1),
{
}

/// A walkthrough keeps every session healthy.
pub proof fn lemma_walkthrough_wf(
    t0: InteractiveTutor,
    t1: InteractiveTutor,
    sid: u128,
    now: u64,
    text: Option<Seq<char>>,
    r: Result<TutorResponse, TutorError>,
)
    requires
        tutor_wf(t0),
        walkthrough_post(t0, t1, sid, now, text, r),
    ensures
        tutor_wf(t1),
{
}

/// From a pending challenge, a walkthrough always yields phase
/// `Walkthrough` with the stored challenge marked as walked through, and
/// the next successful submission always yields phase `NewChallenge`
/// with a new challenge announced whose description differs from the
/// previous one.
pub proof fn lemma_walkthrough_then_new_challenge(
    t0: InteractiveTutor,
    t1: InteractiveTutor,
    t2: InteractiveTutor,
    sid: u128,
    now1: u64,
    now2: u64,
    wt: Option<Seq<char>>,
    code: Seq<char>,
    exec: ExecutionResultModel,
    assist: Option<Seq<char>>,
    r1: Result<TutorResponse, TutorError>,
    r2: Result<TutorResponse, TutorError>,
)
    requires
        t0.sessions@.contains_key(sid),
        t0.sessions@[sid]@.current_challenge is Some,
        walkthrough_post(t0, t1, sid, now1, wt, r1),
        r1 is Ok,
        submit_post(t1, t2, sid, code, now2, exec, assist, r2),
        r2 is Ok,
        exec.success,
    ensures
        r1 matches Ok(resp1) && resp1.phase == TeachingPhase::Walkthrough
            && resp1.show_new_challenge,
        t1.sessions@[sid]@.current_challenge matches Some(c1) && c1.walkthrough_used,
        r2 matches Ok(resp2) && resp2.phase == TeachingPhase::NewChallenge
            && resp2.show_new_challenge,
        (match (r2, t0.sessions@[sid]@.current_challenge) {
            (Ok(resp2), Some(c0)) => resp2.message@ != c0.description,
            _ => false,
        }),
        (match (t2.sessions@[sid]@.current_challenge, t0.sessions@[sid]@.current_challenge) {
            (Some(c2), Some(c0)) => c2.description != c0.description && !c2.walkthrough_used,
            _ => false,
        }),
{
}

/// Requesting a hint twice raises the stored hint count by exactly two:
/// hints accumulate, they are neither capped at one nor reset.
pub proof fn lemma_hint_twice(
    t0: InteractiveTutor,
    t1: InteractiveTutor,
    t2: InteractiveTutor,
    sid: u128,
    now1: u64,
    now2: u64,
    h1: Option<Seq<char>>,
    h2: Option<Seq<char>>,
    r1: Result<TutorResponse, TutorError>,
    r2: Result<TutorResponse, TutorError>,
)
    requires
        t0.sessions@.contains_key(sid),
        t0.sessions@[sid]@.current_challenge is Some,
        (match t0.sessions@[sid]@.current_challenge {
            Some(c) => c.hints_given + 2 <= u32::MAX,
            None => true,
        }),
        hint_post(t0, t1, sid, now1, h1, r1),
        r1 is Ok,
        hint_post(t1, t2, sid, now2, h2, r2),
        r2 is Ok,
    ensures
        (match (t2.sessions@[sid]@.current_challenge, t0.sessions@[sid]@.current_challenge) {
            (Some(c2), Some(c0)) => c2.hints_given == c0.hints_given + 2,
            _ => false,
        }),
        (match t0.sessions@[sid]@.current_challenge {
            Some(c0) => c0.hints_given == 0 ==> (match t2.sessions@[sid]@.current_challenge {
                Some(c2) => c2.hints_given == 2,
                None => false,
            }),
            None => true,
        }),
{
}

/// With no reasoning service configured, every successful execution that
/// is not post-walkthrough ends the challenge cycle in phase `Mastery`.
pub proof fn lemma_fallback_mastery(
    t0: InteractiveTutor,
    t1: InteractiveTutor,
    sid: u128,
    code: Seq<char>,
    now: u64,
    exec: ExecutionResultModel,
    r: Result<TutorResponse, TutorError>,
)
    requires
        submit_post(t0, t1, sid, code, now, exec, None, r),
        r is Ok,
        exec.success,
        (match t0.sessions@[sid]@.current_challenge {
            Some(c) => !c.walkthrough_used,
            None => true,
        }),
    ensures
        r matches Ok(resp) && resp.phase == TeachingPhase::Mastery,
        t1.sessions@[sid]@.teaching_phase == TeachingPhase::Mastery,
        t1.sessions@[sid]@.current_challenge is None,
{
}

} // verus!
