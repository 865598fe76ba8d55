//! The lesson catalogue: lessons keyed by identifier, handed out in the
//! lexicographic order of their identifiers. Loading lesson definitions
//! from disk is an I/O edge outside the verified core; parsed lessons
//! enter through `insert_lesson`, which keeps the order sorted and free
//! of duplicates.

use vstd::assert_by_contradiction;
use vstd::hash_map::StringHashMap;
use vstd::prelude::*;

use crate::models::Lesson;
use crate::text::chars_of;

verus! {

/// Strict lexicographic order on character sequences, by code point.
pub open spec fn lex_lt(a: Seq<char>, b: Seq<char>) -> bool
    decreases a.len(),
{
    if b.len() == 0 {
        false
    } else if a.len() == 0 {
        true
    } else if a[0] < b[0] {
        true
    } else if b[0] < a[0] {
        false
    } else {
        lex_lt(a.drop_first(), b.drop_first())
    }
}

/// The order is irreflexive.
pub proof fn lemma_lex_lt_irrefl(a: Seq<char>)
    ensures
        !lex_lt(a, a),
    decreases a.len(),
{
    if a.len() > 0 {
        lemma_lex_lt_irrefl(a.drop_first());
    }
}

/// Two distinct sequences compare one way or the other.
pub proof fn lemma_lex_lt_total(a: Seq<char>, b: Seq<char>)
    requires
        a != b,
    ensures
        lex_lt(a, b) || lex_lt(b, a),
    decreases a.len(),
{
    if a.len() == 0 && b.len() == 0 {
        assert(a =~= b);
    } else if a.len() > 0 && b.len() > 0 && !(a[0] < b[0]) && !(b[0] < a[0]) {
        if a.drop_first() == b.drop_first() {
            assert(a[0] == b[0]);
            assert(a =~= seq![a[0]] + a.drop_first());
            assert(b =~= seq![b[0]] + b.drop_first());
        } else {
            lemma_lex_lt_total(a.drop_first(), b.drop_first());
        }
    }
}

/// The order is transitive.
pub proof fn lemma_lex_lt_trans(a: Seq<char>, b: Seq<char>, c: Seq<char>)
    requires
        lex_lt(a, b),
        lex_lt(b, c),
    ensures
        lex_lt(a, c),
    decreases a.len(),
{
    if a.len() > 0 && b.len() > 0 && c.len() > 0 && !(a[0] < b[0]) && !(b[0] < a[0]) && !(b[0]
        < c[0]) && !(c[0] < b[0]) {
        lemma_lex_lt_trans(a.drop_first(), b.drop_first(), c.drop_first());
    }
}

/// Whether the characters of `a` order strictly before those of `b`.
fn chars_lt(a: &Vec<char>, b: &Vec<char>) -> (r: bool)
    ensures
        r == lex_lt(a@, b@),
{
    proof {
        assert(a@.skip(0) =~= a@);
        assert(b@.skip(0) =~= b@);
    }
    let mut i: usize = 0;
    loop
        invariant
            i <= a@.len(),
            i <= b@.len(),
            lex_lt(a@, b@) == lex_lt(a@.skip(i as int), b@.skip(i as int)),
        decreases a@.len() - i,
    {
        if i >= b.len() {
            return false;
        }
        if i >= a.len() {
            return true;
        }
        if a[i] < b[i] {
            return true;
        }
        if b[i] < a[i] {
            return false;
        }
        proof {
            assert(a@.skip(i as int).drop_first() =~= a@.skip(i as int + 1));
            assert(b@.skip(i as int).drop_first() =~= b@.skip(i as int + 1));
        }
        i = i + 1;
    }
}

/// The lesson catalogue.
pub struct LessonManager {
    lessons: StringHashMap<Lesson>,
    lesson_order: Vec<String>,
}

impl LessonManager {
    /// The map from lesson identifier to lesson.
    pub closed spec fn lessons_map(&self) -> Map<Seq<char>, Lesson> {
        self.lessons@
    }

    /// The lesson identifiers in catalogue order.
    pub closed spec fn order(&self) -> Seq<Seq<char>> {
        self.lesson_order.deep_view()
    }

    /// Well-formedness: the order lists exactly the stored identifiers,
    /// strictly sorted (hence without duplicates), and every stored
    /// lesson carries the identifier it is keyed by.
    pub open spec fn wf(&self) -> bool {
        &&& forall|i: int|
            0 <= i < self.order().len() ==> self.lessons_map().contains_key(
                #[trigger] self.order()[i],
            )
        &&& forall|k: Seq<char>|
            self.lessons_map().contains_key(k) ==> exists|i: int|
                0 <= i < self.order().len() && #[trigger] self.order()[i] == k
        &&& forall|i: int, j: int|
            0 <= i < j < self.order().len() ==> lex_lt(
                #[trigger] self.order()[i],
                #[trigger] self.order()[j],
            )
        &&& forall|i: int|
            0 <= i < self.order().len() ==> self.lessons_map()[#[trigger] self.order()[i]].id@
                == self.order()[i]
    }

    /// An empty catalogue.
    pub fn new() -> (r: LessonManager)
        ensures
            r.wf(),
            r.lessons_map() == Map::<Seq<char>, Lesson>::empty(),
            r.order() == Seq::<Seq<char>>::empty(),
    {
        let r = LessonManager { lessons: StringHashMap::new(), lesson_order: Vec::new() };
        proof {
            assert(r.order() =~= Seq::<Seq<char>>::empty());
        }
        r
    }

    /// The lesson with the given identifier, if present.
    pub fn get_lesson(&self, lesson_id: &str) -> (r: Option<&Lesson>)
        ensures
            match r {
                Some(l) => self.lessons_map().contains_key(lesson_id@) && *l == self.lessons_map()[
                    lesson_id@
                ],
                None => !self.lessons_map().contains_key(lesson_id@),
            },
    {
        self.lessons.get(lesson_id)
    }

    /// Adds a lesson under its identifier. An existing lesson with the
    /// same identifier is replaced; the catalogue order stays strictly
    /// sorted.
    pub fn insert_lesson(&mut self, lesson: Lesson)
        requires
            old(self).wf(),
        ensures
            final(self).wf(),
            final(self).lessons_map() == old(self).lessons_map().insert(lesson.id@, lesson),
    {
        let id_chars = chars_of(lesson.id.as_str());
        let mut p: usize = 0;
        loop
            invariant_except_break
                old(self).wf(),
                *self == *old(self),
                id_chars@ == lesson.id@,
                p <= self.order().len(),
                forall|i: int| 0 <= i < p ==> lex_lt(#[trigger] self.order()[i], lesson.id@),
            ensures
                *self == *old(self),
                p <= self.order().len(),
                forall|i: int| 0 <= i < p ==> lex_lt(#[trigger] self.order()[i], lesson.id@),
                p < self.order().len() ==> !lex_lt(self.order()[p as int], lesson.id@),
            decreases self.lesson_order@.len() - p,
        {
            if p >= self.lesson_order.len() {
                break;
            }
            proof {
                assert(self.order()[p as int] == self.lesson_order@[p as int]@);
            }
            let cur = chars_of(self.lesson_order[p].as_str());
            if !chars_lt(&cur, &id_chars) {
                break;
            }
            p = p + 1;
        }
        let ghost old_order = self.order();
        let ghost old_map = self.lessons_map();
        let ghost idv = lesson.id@;
        let mut already = false;
        if p < self.lesson_order.len() {
            let cur = chars_of(self.lesson_order[p].as_str());
            proof {
                assert(self.order()[p as int] == self.lesson_order@[p as int]@);
            }
            already = !chars_lt(&id_chars, &cur);
        }
        proof {
            if p < old_order.len() {
                assert(old_order[p as int] == self.lesson_order@[p as int]@);
                if !lex_lt(idv, old_order[p as int]) && !lex_lt(old_order[p as int], idv) {
                    assert_by_contradiction!(old_order[p as int] == idv, {
                        lemma_lex_lt_total(old_order[p as int], idv);
                    });
                }
            }
        }
        if !already {
            self.lesson_order.insert(p, lesson.id.clone());
        }
        self.lessons.insert(lesson.id.clone(), lesson);
        proof {
            let new_order = self.order();
            let new_map = self.lessons_map();
            assert(new_map == old_map.insert(idv, lesson));
            if already {
                // The identifier already sits at position p; the order is
                // unchanged and still lists exactly the stored keys.
                assert(old_order[p as int] == idv);
                assert(new_order =~= old_order);
                assert forall|k: Seq<char>| new_map.contains_key(k) implies exists|i: int|
                    0 <= i < new_order.len() && #[trigger] new_order[i] == k by {
                    if k == idv {
                        assert(new_order[p as int] == k);
                    } else {
                        let i = choose|i: int|
                            0 <= i < old_order.len() && #[trigger] old_order[i] == k;
                        assert(new_order[i] == k);
                    }
                }
            } else {
                // The identifier is new at position p: entries before p
                // stay put, entries at and after p shift right by one.
                assert(new_order =~= old_order.insert(p as int, idv));
                assert forall|i: int|
                    0 <= i < new_order.len() implies new_map.contains_key(
                    #[trigger] new_order[i],
                ) by {
                    if i < p {
                        assert(new_order[i] == old_order[i]);
                    } else if i > p {
                        assert(new_order[i] == old_order[i - 1]);
                    }
                }
                assert forall|k: Seq<char>| new_map.contains_key(k) implies exists|i: int|
                    0 <= i < new_order.len() && #[trigger] new_order[i] == k by {
                    if k == idv {
                        assert(new_order[p as int] == k);
                    } else {
                        let i = choose|i: int|
                            0 <= i < old_order.len() && #[trigger] old_order[i] == k;
                        if i < p {
                            assert(new_order[i] == k);
                        } else {
                            assert(new_order[i + 1] == k);
                        }
                    }
                }
                assert forall|i: int, j: int|
                    0 <= i < j < new_order.len() implies lex_lt(
                    #[trigger] new_order[i],
                    #[trigger] new_order[j],
                ) by {
                    if p < old_order.len() {
                        // The displaced entry orders strictly after the
                        // new identifier.
                        assert(!lex_lt(old_order[p as int], idv));
                        if old_order[p as int] != idv {
                            lemma_lex_lt_total(old_order[p as int], idv);
                        } else {
                            assert(already);
                        }
                        assert(lex_lt(idv, old_order[p as int]));
                    }
                    if i < p && j < p {
                    } else if i < p && j == p {
                        assert(new_order[i] == old_order[i]);
                    } else if i == p {
                        assert(new_order[j] == old_order[j - 1]);
                        if j - 1 > p {
                            lemma_lex_lt_trans(idv, old_order[p as int], old_order[j - 1]);
                        }
                    } else if i < p && j > p {
                        assert(new_order[i] == old_order[i]);
                        assert(new_order[j] == old_order[j - 1]);
                    } else {
                        assert(new_order[i] == old_order[i - 1]);
                        assert(new_order[j] == old_order[j - 1]);
                    }
                }
                assert forall|i: int|
                    0 <= i < new_order.len() implies new_map[#[trigger] new_order[i]].id@
                    == new_order[i] by {
                    if i < p {
                        assert(new_order[i] == old_order[i]);
                        assert(lex_lt(old_order[i], idv));
                        lemma_lex_lt_irrefl(idv);
                    } else if i > p {
                        assert(new_order[i] == old_order[i - 1]);
                    }
                }
            }
        }
    }

    /// All lessons, in catalogue order.
    pub fn get_all_lessons(&self) -> (r: Vec<&Lesson>)
        requires
            self.wf(),
        ensures
            r@.len() == self.order().len(),
            forall|i: int|
                0 <= i < r@.len() ==> *(#[trigger] r@[i]) == self.lessons_map()[self.order()[i]],
    {
        let mut r: Vec<&Lesson> = Vec::new();
        let mut i: usize = 0;
        while i < self.lesson_order.len()
            invariant
                self.wf(),
                i <= self.order().len(),
                self.order().len() == self.lesson_order@.len(),
                r@.len() == i,
                forall|j: int|
                    0 <= j < i ==> *(#[trigger] r@[j]) == self.lessons_map()[self.order()[j]],
            decreases self.lesson_order@.len() - i,
        {
            proof {
                assert(self.order()[i as int] == self.lesson_order@[i as int]@);
            }
            match self.lessons.get(self.lesson_order[i].as_str()) {
                Some(l) => {
                    r.push(l);
                },
                None => {
                    proof {
                        assert(false);
                    }
                },
            }
            i = i + 1;
        }
        r
    }

    /// The lesson after the given one in catalogue order, if any.
    pub fn get_next_lesson(&self, current_lesson_id: &str) -> (r: Option<&Lesson>)
        requires
            self.wf(),
        ensures
            (forall|i: int| 0 <= i < self.order().len() ==> #[trigger] self.order()[i]
                != current_lesson_id@) ==> r is None,
            forall|i: int|
                0 <= i < self.order().len() && #[trigger] self.order()[i] == current_lesson_id@
                    ==> (if i + 1 < self.order().len() {
                    r matches Some(l) && *l == self.lessons_map()[self.order()[i + 1]]
                } else {
                    r is None
                }),
    {
        let n = self.lesson_order.len();
        let mut i: usize = 0;
        while i < n
            invariant
                self.wf(),
                n == self.order().len(),
                i <= n,
                forall|j: int| 0 <= j < i ==> #[trigger] self.order()[j] != current_lesson_id@,
            decreases n - i,
        {
            proof {
                assert(self.order()[i as int] == self.lesson_order@[i as int]@);
            }
            if str_eq(self.lesson_order[i].as_str(), current_lesson_id) {
                if i + 1 < n {
                    proof {
                        assert(self.order()[i as int + 1] == self.lesson_order@[i as int + 1]@);
                    }
                    match self.lessons.get(self.lesson_order[i + 1].as_str()) {
                        Some(l) => {
                            proof {
                                assert forall|k: int|
                                    0 <= k < self.order().len() && #[trigger] self.order()[k]
                                        == current_lesson_id@ implies k == i by {
                                    if k < i as int {
                                        assert(self.order()[k] != current_lesson_id@);
                                    } else if k > i as int {
                                        assert(lex_lt(self.order()[i as int], self.order()[k]));
                                        lemma_lex_lt_irrefl(current_lesson_id@);
                                    }
                                }
                            }
                            return Some(l);
                        },
                        None => {
                            proof {
                                assert(false);
                            }
                        },
                    }
                } else {
                    proof {
                        assert forall|k: int|
                            0 <= k < self.order().len() && #[trigger] self.order()[k]
                                == current_lesson_id@ implies !(k + 1 < self.order().len()) by {
                            if k < i as int {
                                assert(self.order()[k] != current_lesson_id@);
                            } else if k > i as int {
                                assert(lex_lt(self.order()[i as int], self.order()[k]));
                                lemma_lex_lt_irrefl(current_lesson_id@);
                            }
                        }
                    }
                    return None;
                }
            }
            i = i + 1;
        }
        None
    }

    /// The first lesson in catalogue order, if any.
    pub fn get_first_lesson(&self) -> (r: Option<&Lesson>)
        requires
            self.wf(),
        ensures
            self.order().len() == 0 ==> r is None,
            self.order().len() > 0 ==> (r matches Some(l) && *l == self.lessons_map()[
                self.order().first()
            ]),
    {
        if self.lesson_order.len() == 0 {
            return None;
        }
        proof {
            assert(self.order()[0] == self.lesson_order@[0]@);
        }
        self.lessons.get(self.lesson_order[0].as_str())
    }
}


impl Default for LessonManager {
    /// An empty catalogue.
    fn default() -> (r: LessonManager)
        ensures
            r.wf(),
            r.lessons_map() == Map::<Seq<char>, Lesson>::empty(),
            r.order() == Seq::<Seq<char>>::empty(),
    {
        LessonManager::new()
    }
}

/// Whether two strings hold the same characters.
pub fn str_eq(a: &str, b: &str) -> (r: bool)
    ensures
        r == (a@ == b@),
{
    let av = chars_of(a);
    let bv = chars_of(b);
    if av.len() != bv.len() {
        return false;
    }
    let mut i: usize = 0;
    while i < av.len()
        invariant
            av@ == a@,
            bv@ == b@,
            av@.len() == bv@.len(),
            i <= av@.len(),
            forall|j: int| 0 <= j < i ==> av@[j] == bv@[j],
        decreases av@.len() - i,
    {
        if av[i] != bv[i] {
            return false;
        }
        i = i + 1;
    }
    proof {
        assert(a@ =~= b@);
    }
    true
}
} // verus!
