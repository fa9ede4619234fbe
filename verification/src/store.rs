//! The in-memory store: canonical owner of the question and answer
//! collections, with CRUD operations that assign identifiers from
//! counters and keep the listing order stable.

use vstd::prelude::*;
use vstd::pervasive::VecAdditionalExecFns;

use crate::decimal::{dec_of, lemma_dec_of_injective, u64_to_string};
use crate::errors::Error;
use crate::types::answer::{Answer, AnswerId, AnswerView, NewAnswer};
use crate::types::question::{NewQuestion, Question, QuestionId, QuestionView};

verus! {

/// Some question in `qs` carries identifier `id`.
pub open spec fn has_question_id(qs: Seq<QuestionView>, id: Seq<char>) -> bool {
    exists|i: int| 0 <= i < qs.len() && qs[i].id == id
}

/// How many questions in `qs` carry identifier `id`.
pub open spec fn count_with_id(qs: Seq<QuestionView>, id: Seq<char>) -> nat
    decreases qs.len(),
{
    if qs.len() == 0 {
        0
    } else {
        count_with_id(qs.drop_last(), id) + if qs.last().id == id {
            1nat
        } else {
            0nat
        }
    }
}

/// `id` is the canonical decimal of some counter value already
/// consumed below `counter`.
pub open spec fn id_assigned(counter: nat, id: Seq<char>) -> bool {
    exists|n: nat| n < counter && id == dec_of(n)
}

/// An identifier assigned under a counter stays assigned under any
/// larger one.
proof fn lemma_id_assigned_grow(c1: nat, c2: nat, id: Seq<char>)
    requires
        id_assigned(c1, id),
        c1 <= c2,
    ensures
        id_assigned(c2, id),
{
    let n = choose|n: nat| n < c1 && id == dec_of(n);
    assert(n < c2 && id == dec_of(n));
}

/// No two questions in `qs` share an identifier.
pub open spec fn distinct_ids(qs: Seq<QuestionView>) -> bool {
    forall|i: int, j: int| 0 <= i < j < qs.len() ==> qs[i].id != qs[j].id
}

/// The slice of `qs` selected by pagination bounds, exactly as the
/// relational `LIMIT` and `OFFSET` clauses select rows: skip `offset`
/// records from the front, then take at most `limit` of the rest.
pub open spec fn paginate(qs: Seq<QuestionView>, limit: Option<u32>, offset: u32) -> Seq<
    QuestionView,
> {
    let start = if offset as int <= qs.len() {
        offset as int
    } else {
        qs.len() as int
    };
    let end = match limit {
        Some(l) => if start + l as int <= qs.len() {
            start + l as int
        } else {
            qs.len() as int
        },
        None => qs.len() as int,
    };
    qs.subrange(start, end)
}

/// Appending a question adds one occurrence of its identifier.
proof fn lemma_count_push(qs: Seq<QuestionView>, q: QuestionView)
    ensures
        count_with_id(qs.push(q), q.id) == count_with_id(qs, q.id) + 1,
{
    assert(qs.push(q).drop_last() =~= qs);
    assert(qs.push(q).last() == q);
}

/// An identifier no question carries is counted zero times.
proof fn lemma_count_zero(qs: Seq<QuestionView>, id: Seq<char>)
    requires
        !has_question_id(qs, id),
    ensures
        count_with_id(qs, id) == 0,
    decreases qs.len(),
{
    if qs.len() > 0 {
        let shorter = qs.drop_last();
        assert forall|i: int| 0 <= i < shorter.len() implies shorter[i].id != id by {
            assert(shorter[i] == qs[i]);
        }
        lemma_count_zero(shorter, id);
        assert(qs.last() == qs[qs.len() - 1]);
    }
}

/// A newly added question is listed exactly once by an unpaginated
/// listing: it stands at the end of the stable order, and no other
/// record carries its identifier.
pub proof fn lemma_added_question_listed_once(qs: Seq<QuestionView>, q: QuestionView)
    requires
        !has_question_id(qs, q.id),
    ensures
        paginate(qs.push(q), None, 0) == qs.push(q),
        count_with_id(qs.push(q), q.id) == 1,
{
    lemma_count_zero(qs, q.id);
    lemma_count_push(qs, q);
    assert(paginate(qs.push(q), None, 0) =~= qs.push(q));
}

/// Deleting removes exactly the record at `i`: afterwards no record
/// carries its identifier, and every other record survives in order.
pub proof fn lemma_delete_removes_exactly(qs: Seq<QuestionView>, i: int)
    requires
        distinct_ids(qs),
        0 <= i < qs.len(),
    ensures
        !has_question_id(qs.remove(i), qs[i].id),
        qs.remove(i).len() == qs.len() - 1,
        forall|j: int| 0 <= j < i ==> qs.remove(i)[j] == qs[j],
        forall|j: int| i <= j < qs.len() - 1 ==> qs.remove(i)[j] == qs[j + 1],
{
    let rest = qs.remove(i);
    assert forall|k: int| 0 <= k < rest.len() implies rest[k].id != qs[i].id by {
        if k < i {
            assert(rest[k] == qs[k]);
        } else {
            assert(rest[k] == qs[k + 1]);
        }
    }
}

/// However many insertions have run against a well-formed store, none
/// was lost to another: every pair of stored records carries distinct
/// identifiers, in both collections.
pub proof fn lemma_records_distinct(s: Store)
    requires
        s.wf(),
    ensures
        distinct_ids(s.questions_view()),
        forall|i: int, j: int|
            0 <= i < j < s.answers_view().len() ==> s.answers_view()[i].id
                != s.answers_view()[j].id,
{
}

/// An unpaginated listing returns the whole stable order.
pub proof fn lemma_paginate_full(qs: Seq<QuestionView>)
    ensures
        paginate(qs, None, 0) == qs,
{
    assert(paginate(qs, None, 0) =~= qs);
}

/// A store whose answers and answer counter did not change keeps the
/// answer half of well-formedness.
proof fn lemma_answers_wf_carryover(pre: Store, post: Store)
    requires
        pre.wf(),
        post.answers_view() == pre.answers_view(),
        post.answer_counter() == pre.answer_counter(),
    ensures
        forall|i: int|
            0 <= i < post.answers_view().len() ==> 1 <= (#[trigger] post.answers_view()[i]).id
                < post.answer_counter(),
        forall|i: int, j: int|
            0 <= i < j < post.answers_view().len() ==> post.answers_view()[i].id
                != post.answers_view()[j].id,
{
    assert forall|i: int|
        0 <= i < post.answers_view().len() implies 1 <= (#[trigger] post.answers_view()[i]).id
        < post.answer_counter() by {
        assert(1 <= pre.answers_view()[i].id < pre.answer_counter());
    }
    assert forall|i: int, j: int|
        0 <= i < j < post.answers_view().len() implies post.answers_view()[i].id
        != post.answers_view()[j].id by {
        assert(pre.answers_view()[i].id != pre.answers_view()[j].id);
    }
}

/// A store whose questions and question counter did not change keeps
/// the question half of well-formedness.
proof fn lemma_questions_wf_carryover(pre: Store, post: Store)
    requires
        pre.wf(),
        post.questions_view() == pre.questions_view(),
        post.question_counter() == pre.question_counter(),
    ensures
        distinct_ids(post.questions_view()),
        forall|i: int|
            0 <= i < post.questions_view().len() ==> id_assigned(
                post.question_counter(),
                (#[trigger] post.questions_view()[i]).id,
            ),
{
    assert forall|i: int|
        0 <= i < post.questions_view().len() implies id_assigned(
        post.question_counter(),
        (#[trigger] post.questions_view()[i]).id,
    ) by {
        assert(post.questions_view()[i].id == pre.questions_view()[i].id);
        assert(id_assigned(pre.question_counter(), pre.questions_view()[i].id));
    }
}

/// Canonical owner of the question and answer collections. Records
/// are listed in insertion order; identifiers come from counters and
/// are never reused.
pub struct Store {
    questions: Vec<Question>,
    answers: Vec<Answer>,
    next_question_id: u64,
    next_answer_id: i32,
}

impl Store {
    /// The stored questions, in their stable listing order.
    pub closed spec fn questions_view(self) -> Seq<QuestionView> {
        self.questions.deep_view()
    }

    /// The stored answers, in insertion order.
    pub closed spec fn answers_view(self) -> Seq<AnswerView> {
        self.answers.deep_view()
    }

    /// Counter from which the next question identifier is derived.
    pub closed spec fn question_counter(self) -> nat {
        self.next_question_id as nat
    }

    /// Counter from which the next answer identifier is taken.
    pub closed spec fn answer_counter(self) -> int {
        self.next_answer_id as int
    }

    /// A question identifier can still be assigned.
    pub open spec fn can_assign_question_id(self) -> bool {
        self.question_counter() < u64::MAX as nat
    }

    /// An answer identifier can still be assigned.
    pub open spec fn can_assign_answer_id(self) -> bool {
        self.answer_counter() < i32::MAX as int
    }

    /// Well-formedness: every question identifier is the canonical
    /// decimal of a counter value already consumed, no two records of
    /// either collection share an identifier, and every answer
    /// identifier lies below its counter.
    pub open spec fn wf(self) -> bool {
        &&& distinct_ids(self.questions_view())
        &&& forall|i: int|
            0 <= i < self.questions_view().len() ==> id_assigned(
                self.question_counter(),
                (#[trigger] self.questions_view()[i]).id,
            )
        &&& forall|i: int|
            0 <= i < self.answers_view().len() ==> 1 <= (#[trigger] self.answers_view()[i]).id
                < self.answer_counter()
        &&& forall|i: int, j: int|
            0 <= i < j < self.answers_view().len() ==> self.answers_view()[i].id
                != self.answers_view()[j].id
        &&& 1 <= self.question_counter()
        &&& 1 <= self.answer_counter()
    }

    /// Both stores hold the same records and the same counters.
    pub open spec fn same_state(self, other: Store) -> bool {
        &&& self.questions_view() == other.questions_view()
        &&& self.answers_view() == other.answers_view()
        &&& self.question_counter() == other.question_counter()
        &&& self.answer_counter() == other.answer_counter()
    }

    /// Creates an empty store.
    pub fn new() -> (s: Store)
        ensures
            s.wf(),
            s.questions_view() == Seq::<QuestionView>::empty(),
            s.answers_view() == Seq::<AnswerView>::empty(),
            s.question_counter() == 1,
            s.answer_counter() == 1,
    {
        let s = Store {
            questions: Vec::new(),
            answers: Vec::new(),
            next_question_id: 1,
            next_answer_id: 1,
        };
        proof {
            assert(s.questions.deep_view() =~= Seq::<QuestionView>::empty());
            assert(s.answers.deep_view() =~= Seq::<AnswerView>::empty());
        }
        s
    }

    /// Whether a question identifier can still be assigned; callers
    /// outside verified code test this before inserting.
    pub fn can_add_question(&self) -> (r: bool)
        ensures
            r == self.can_assign_question_id(),
    {
        self.next_question_id < u64::MAX
    }

    /// Whether an answer identifier can still be assigned; callers
    /// outside verified code test this before inserting.
    pub fn can_add_answer(&self) -> (r: bool)
        ensures
            r == self.can_assign_answer_id(),
    {
        self.next_answer_id < i32::MAX
    }

    /// Lists the stored questions in stable order, sliced by the
    /// supplied bounds exactly as `paginate` states. The in-memory
    /// backend cannot fail.
    pub fn get_questions(&self, limit: Option<u32>, offset: u32) -> (r: Result<Vec<Question>, Error>)
        ensures
            r matches Ok(qs) && qs.deep_view() == paginate(self.questions_view(), limit, offset),
    {
        let len = self.questions.len();
        let start: usize = if (offset as usize) < len {
            offset as usize
        } else {
            len
        };
        let end: usize = match limit {
            Some(l) => {
                let avail = len - start;
                let take: usize = if (l as usize) < avail {
                    l as usize
                } else {
                    avail
                };
                start + take
            },
            None => len,
        };
        let ghost target = paginate(self.questions_view(), limit, offset);
        proof {
            assert(target == self.questions.deep_view().subrange(start as int, end as int));
        }
        let mut out: Vec<Question> = Vec::new();
        let mut i: usize = start;
        proof {
            assert(out.deep_view() =~= self.questions.deep_view().subrange(
                start as int,
                start as int,
            ));
        }
        while i < end
            invariant
                start <= i <= end <= self.questions@.len(),
                out.deep_view() == self.questions.deep_view().subrange(start as int, i as int),
            decreases end - i,
        {
            let q = self.questions[i].clone();
            let ghost prev_elems = out@;
            let ghost prev = out.deep_view();
            out.push(q);
            proof {
                assert(out@ == prev_elems.push(q));
                assert(self.questions.deep_view().len() == self.questions@.len());
                assert(prev.len() == prev_elems.len());
                assert(prev.len() == i - start);
                assert(out.deep_view().len() == out@.len());
                assert forall|k: int|
                    0 <= k < out.deep_view().len() implies out.deep_view()[k]
                    == self.questions.deep_view().subrange(start as int, i as int + 1)[k] by {
                    assert(out.deep_view()[k] == out@[k].deep_view());
                    if k < prev_elems.len() {
                        assert(out@[k] == prev_elems[k]);
                        assert(prev[k] == prev_elems[k].deep_view());
                        assert(prev[k] == self.questions.deep_view().subrange(
                            start as int,
                            i as int,
                        )[k]);
                    } else {
                        assert(out@[k] == q);
                        assert(q.deep_view() == self.questions.deep_view()[i as int]);
                    }
                }
                assert(out.deep_view() =~= self.questions.deep_view().subrange(
                    start as int,
                    i as int + 1,
                ));
            }
            i = i + 1;
        }
        Ok(out)
    }

    /// Finds the position of the question carrying `id`, if any.
    fn find_question(&self, id: &QuestionId) -> (r: Option<usize>)
        ensures
            match r {
                Some(i) => i < self.questions_view().len() && self.questions_view()[i as int].id
                    == id@,
                None => !has_question_id(self.questions_view(), id@),
            },
    {
        let mut i: usize = 0;
        while i < self.questions.len()
            invariant
                i <= self.questions@.len(),
                forall|j: int|
                    0 <= j < i ==> (#[trigger] self.questions.deep_view()[j]).id != id@,
            decreases self.questions@.len() - i,
        {
            if self.questions[i].id == *id {
                return Some(i);
            }
            i = i + 1;
        }
        None
    }

    /// Inserts a new question: assigns the next identifier, appends
    /// the record to the stable listing order, and returns the stored
    /// form. Identifiers are never reused, so the new record is
    /// distinct from every stored one; inserting identical content
    /// twice creates two distinct records.
    pub fn add_question(&mut self, new_question: NewQuestion) -> (r: Result<Question, Error>)
        requires
            old(self).wf(),
            old(self).can_assign_question_id(),
        ensures
            final(self).wf(),
            r is Ok,
            r matches Ok(q) ==> ({
                &&& q@.id == dec_of(old(self).question_counter())
                &&& q@.title == new_question@.title
                &&& q@.content == new_question@.content
                &&& q@.tags == new_question@.tags
                &&& final(self).questions_view() == old(self).questions_view().push(q@)
                &&& !has_question_id(old(self).questions_view(), q@.id)
                &&& count_with_id(final(self).questions_view(), q@.id) == 1
            }),
            final(self).answers_view() == old(self).answers_view(),
            final(self).question_counter() == old(self).question_counter() + 1,
            final(self).answer_counter() == old(self).answer_counter(),
    {
        let id_text = u64_to_string(self.next_question_id);
        let question = Question {
            id: QuestionId(id_text),
            title: new_question.title,
            content: new_question.content,
            tags: new_question.tags,
        };
        let stored = question.clone();
        let ghost fresh_id = dec_of(old(self).question_counter());
        proof {
            assert forall|i: int|
                0 <= i < old(self).questions_view().len() implies (#[trigger] old(
                self,
            ).questions_view()[i]).id != fresh_id by {
                assert(id_assigned(
                    old(self).question_counter(),
                    old(self).questions_view()[i].id,
                ));
                let n = choose|n: nat|
                    n < old(self).question_counter() && old(self).questions_view()[i].id == dec_of(
                        n,
                    );
                if old(self).questions_view()[i].id == fresh_id {
                    lemma_dec_of_injective(n, old(self).question_counter());
                }
            }
        }
        self.questions.push(question);
        self.next_question_id = self.next_question_id + 1;
        proof {
            assert(self.questions.deep_view() =~= old(self).questions.deep_view().push(stored@));
            assert forall|i: int|
                0 <= i < self.questions_view().len() implies id_assigned(
                self.question_counter(),
                (#[trigger] self.questions_view()[i]).id,
            ) by {
                if i < old(self).questions_view().len() {
                    assert(self.questions_view()[i] == old(self).questions_view()[i]);
                    assert(id_assigned(
                        old(self).question_counter(),
                        old(self).questions_view()[i].id,
                    ));
                    lemma_id_assigned_grow(
                        old(self).question_counter(),
                        self.question_counter(),
                        self.questions_view()[i].id,
                    );
                } else {
                    let n = old(self).question_counter();
                    assert(n < self.question_counter() && self.questions_view()[i].id == dec_of(n));
                }
            }
            assert forall|a: int, b: int|
                0 <= a < b < self.questions_view().len() implies self.questions_view()[a].id
                != self.questions_view()[b].id by {
                if b < old(self).questions_view().len() {
                    assert(old(self).questions_view()[a].id != old(self).questions_view()[b].id);
                } else {
                    assert(self.questions_view()[a] == old(self).questions_view()[a]);
                    assert(self.questions_view()[b] == stored@);
                }
            }
            lemma_answers_wf_carryover(*old(self), *self);
            lemma_count_zero(old(self).questions_view(), fresh_id);
            lemma_count_push(old(self).questions_view(), stored@);
        }
        Ok(stored)
    }

    /// Replaces the record under `id` with the supplied title, content
    /// and tags, keeping the identifier, and returns the stored form;
    /// fails with `QuestionNotFound`, leaving the store unchanged,
    /// exactly when no record is under `id`.
    pub fn update_question(&mut self, question: Question, id: QuestionId) -> (r: Result<
        Question,
        Error,
    >)
        requires
            old(self).wf(),
        ensures
            final(self).wf(),
            final(self).answers_view() == old(self).answers_view(),
            final(self).question_counter() == old(self).question_counter(),
            final(self).answer_counter() == old(self).answer_counter(),
            r is Ok <==> has_question_id(old(self).questions_view(), id@),
            r matches Ok(q) ==> ({
                &&& q@.id == id@
                &&& q@.title == question@.title
                &&& q@.content == question@.content
                &&& q@.tags == question@.tags
                &&& exists|i: int|
                    0 <= i < old(self).questions_view().len() && old(self).questions_view()[i].id
                        == id@ && final(self).questions_view() == old(
                        self,
                    ).questions_view().update(i, q@)
            }),
            r matches Err(e) ==> e is QuestionNotFound && final(self).same_state(*old(self)),
    {
        match self.find_question(&id) {
            Some(i) => {
                let updated = Question {
                    id,
                    title: question.title,
                    content: question.content,
                    tags: question.tags,
                };
                let out = updated.clone();
                self.questions.set(i, updated);
                proof {
                    assert(self.questions.deep_view() =~= old(self).questions.deep_view().update(
                        i as int,
                        out@,
                    ));
                    assert forall|a: int|
                        0 <= a < self.questions_view().len() implies (
                        #[trigger] self.questions_view()[a]).id == old(
                            self,
                        ).questions_view()[a].id by {
                        if a == i as int {
                            assert(self.questions_view()[a].id == out@.id);
                        } else {
                            assert(self.questions_view()[a] == old(self).questions_view()[a]);
                        }
                    }
                    assert forall|a: int, b: int|
                        0 <= a < b < self.questions_view().len() implies self.questions_view()[a].id
                        != self.questions_view()[b].id by {
                        assert(old(self).questions_view()[a].id != old(
                            self,
                        ).questions_view()[b].id);
                    }
                    lemma_answers_wf_carryover(*old(self), *self);
                    assert forall|k: int|
                        0 <= k < self.questions_view().len() implies id_assigned(
                        self.question_counter(),
                        (#[trigger] self.questions_view()[k]).id,
                    ) by {
                        assert(self.questions_view()[k].id == old(self).questions_view()[k].id);
                        assert(id_assigned(
                            old(self).question_counter(),
                            old(self).questions_view()[k].id,
                        ));
                    }
                }
                Ok(out)
            },
            None => Err(Error::QuestionNotFound),
        }
    }

    /// Removes the record under `id`; fails with `QuestionNotFound`,
    /// leaving the store unchanged, exactly when no record is under
    /// `id`. Exactly the one record is removed, so no record carries
    /// `id` afterwards and a second delete with the same identifier
    /// fails.
    pub fn delete_question(&mut self, id: QuestionId) -> (r: Result<(), Error>)
        requires
            old(self).wf(),
        ensures
            final(self).wf(),
            final(self).answers_view() == old(self).answers_view(),
            final(self).question_counter() == old(self).question_counter(),
            final(self).answer_counter() == old(self).answer_counter(),
            r is Ok <==> has_question_id(old(self).questions_view(), id@),
            r is Ok ==> exists|i: int|
                0 <= i < old(self).questions_view().len() && old(self).questions_view()[i].id == id@
                    && final(self).questions_view() == old(self).questions_view().remove(i),
            r is Ok ==> !has_question_id(final(self).questions_view(), id@),
            r matches Err(e) ==> e is QuestionNotFound && final(self).same_state(*old(self)),
    {
        match self.find_question(&id) {
            Some(i) => {
                self.questions.remove(i);
                proof {
                    assert(self.questions.deep_view() =~= old(self).questions.deep_view().remove(
                        i as int,
                    ));
                    lemma_delete_removes_exactly(old(self).questions_view(), i as int);
                    assert forall|a: int, b: int|
                        0 <= a < b < self.questions_view().len() implies self.questions_view()[a].id
                        != self.questions_view()[b].id by {
                        let qs = old(self).questions_view();
                        if b < i as int {
                            assert(qs[a].id != qs[b].id);
                        } else if a < i as int {
                            assert(qs[a].id != qs[b + 1].id);
                        } else {
                            assert(qs[a + 1].id != qs[b + 1].id);
                        }
                    }
                    assert forall|k: int|
                        0 <= k < self.questions_view().len() implies id_assigned(
                        self.question_counter(),
                        (#[trigger] self.questions_view()[k]).id,
                    ) by {
                        let qs = old(self).questions_view();
                        let orig = if k < i as int {
                            k
                        } else {
                            k + 1
                        };
                        assert(self.questions_view()[k] == qs[orig]);
                        assert(id_assigned(old(self).question_counter(), qs[orig].id));
                    }
                    lemma_answers_wf_carryover(*old(self), *self);
                }
                Ok(())
            },
            None => Err(Error::QuestionNotFound),
        }
    }

    /// Inserts a new answer: assigns the next identifier and appends
    /// the record. Whether the referenced question exists is
    /// deliberately not checked.
    pub fn add_answer(&mut self, new_answer: NewAnswer) -> (r: Result<Answer, Error>)
        requires
            old(self).wf(),
            old(self).can_assign_answer_id(),
        ensures
            final(self).wf(),
            r is Ok,
            r matches Ok(a) ==> ({
                &&& a@.id == old(self).answer_counter()
                &&& a@.content == new_answer@.content
                &&& a@.question_id == new_answer@.question_id
                &&& final(self).answers_view() == old(self).answers_view().push(a@)
                &&& forall|i: int|
                    0 <= i < old(self).answers_view().len() ==> (#[trigger] old(
                        self,
                    ).answers_view()[i]).id != a@.id
            }),
            final(self).questions_view() == old(self).questions_view(),
            final(self).question_counter() == old(self).question_counter(),
            final(self).answer_counter() == old(self).answer_counter() + 1,
    {
        let answer = Answer {
            id: AnswerId(self.next_answer_id),
            content: new_answer.content,
            question_id: new_answer.question_id,
        };
        let stored = answer.clone();
        self.answers.push(answer);
        self.next_answer_id = self.next_answer_id + 1;
        proof {
            assert(self.answers.deep_view() =~= old(self).answers.deep_view().push(stored@));
            lemma_questions_wf_carryover(*old(self), *self);
            assert forall|i: int|
                0 <= i < self.answers_view().len() implies 1 <= (
            #[trigger] self.answers_view()[i]).id < self.answer_counter() by {
                if i < old(self).answers_view().len() {
                    assert(self.answers_view()[i] == old(self).answers_view()[i]);
                    assert(1 <= old(self).answers_view()[i].id < old(self).answer_counter());
                } else {
                    assert(self.answers_view()[i] == stored@);
                }
            }
            assert forall|i: int, j: int|
                0 <= i < j < self.answers_view().len() implies self.answers_view()[i].id
                != self.answers_view()[j].id by {
                if j < old(self).answers_view().len() {
                    assert(old(self).answers_view()[i].id != old(self).answers_view()[j].id);
                } else {
                    assert(self.answers_view()[j] == stored@);
                    assert(self.answers_view()[i] == old(self).answers_view()[i]);
                    assert(old(self).answers_view()[i].id < old(self).answer_counter());
                }
            }
        }
        Ok(stored)
    }
}

} // verus!
