//! Handlers for the question routes: each composes pagination
//! extraction, moderation classification and the store into one
//! operation, with every failure flowing out as a typed error.

use vstd::prelude::*;

use crate::decimal::dec_of;
use crate::errors::Error;
use crate::profanity::{check_profanity, moderation_result, ModerationOutcome};
use crate::store::{has_question_id, paginate, Store};
use crate::types::pagination::{extract_pagination, pagination_of, Pagination};
use crate::types::question::{NewQuestion, Question, QuestionId};

verus! {

/// Lists questions: with query parameters present the pagination
/// extractor decides the bounds, otherwise the full unpaginated set
/// comes back in stable order.
pub fn get_questions(params: Vec<(String, String)>, store: &Store) -> (r: Result<
    Vec<Question>,
    Error,
>)
    ensures
        params@.len() == 0 ==> (r matches Ok(qs) && qs.deep_view() == paginate(
            store.questions_view(),
            None,
            0,
        )),
        params@.len() > 0 ==> match pagination_of(params@) {
            Ok(p) => r matches Ok(qs) && qs.deep_view() == paginate(
                store.questions_view(),
                p.limit,
                p.offset,
            ),
            Err(e) => r == Err::<Vec<Question>, Error>(e),
        },
{
    let mut pagination = Pagination::default();
    if !params.is_empty() {
        pagination = match extract_pagination(params) {
            Ok(p) => p,
            Err(e) => return Err(e),
        };
    }
    store.get_questions(pagination.limit, pagination.offset)
}

/// Adds a question: the moderation outcomes for title and content are
/// classified in that order, and only when both passed is the
/// censored record stored; a failed check aborts the whole operation
/// with its classified error and nothing is persisted.
pub fn add_question(
    store: &mut Store,
    new_question: NewQuestion,
    title_moderation: ModerationOutcome,
    content_moderation: ModerationOutcome,
) -> (r: Result<Question, Error>)
    requires
        old(store).wf(),
        old(store).can_assign_question_id(),
    ensures
        final(store).wf(),
        moderation_result(title_moderation) matches Err(e) ==> (r == Err::<Question, Error>(e)
            && final(store).same_state(*old(store))),
        moderation_result(title_moderation) is Ok ==> (moderation_result(content_moderation)
            matches Err(e) ==> (r == Err::<Question, Error>(e) && final(store).same_state(
            *old(store),
        ))),
        moderation_result(title_moderation) matches Ok(title) ==> (moderation_result(
            content_moderation,
        ) matches Ok(content) ==> ({
            &&& r is Ok
            &&& r matches Ok(q) ==> ({
                &&& q@.id == dec_of(old(store).question_counter())
                &&& q@.title == title@
                &&& q@.content == content@
                &&& q@.tags == new_question@.tags
                &&& final(store).questions_view() == old(store).questions_view().push(q@)
                &&& !has_question_id(old(store).questions_view(), q@.id)
            })
            &&& final(store).answers_view() == old(store).answers_view()
        })),
{
    let title = match check_profanity(title_moderation) {
        Ok(res) => res,
        Err(e) => return Err(e),
    };
    let content = match check_profanity(content_moderation) {
        Ok(res) => res,
        Err(e) => return Err(e),
    };
    let question = NewQuestion { title, content, tags: new_question.tags };
    store.add_question(question)
}

/// Updates the question under the path-supplied identifier with the
/// censored title and content; a failed moderation check aborts the
/// operation, and an unknown identifier fails with `QuestionNotFound`,
/// in both cases leaving the store unchanged.
pub fn update_question(
    id: String,
    store: &mut Store,
    question: Question,
    title_moderation: ModerationOutcome,
    content_moderation: ModerationOutcome,
) -> (r: Result<Question, Error>)
    requires
        old(store).wf(),
    ensures
        final(store).wf(),
        moderation_result(title_moderation) matches Err(e) ==> (r == Err::<Question, Error>(e)
            && final(store).same_state(*old(store))),
        moderation_result(title_moderation) is Ok ==> (moderation_result(content_moderation)
            matches Err(e) ==> (r == Err::<Question, Error>(e) && final(store).same_state(
            *old(store),
        ))),
        moderation_result(title_moderation) matches Ok(title) ==> (moderation_result(
            content_moderation,
        ) matches Ok(content) ==> ({
            &&& (r is Ok <==> has_question_id(old(store).questions_view(), id@))
            &&& r matches Ok(q) ==> ({
                &&& q@.id == id@
                &&& q@.title == title@
                &&& q@.content == content@
                &&& q@.tags == question@.tags
                &&& exists|i: int|
                    0 <= i < old(store).questions_view().len() && old(
                        store,
                    ).questions_view()[i].id == id@ && final(store).questions_view() == old(
                        store,
                    ).questions_view().update(i, q@)
            })
            &&& r matches Err(e) ==> (e is QuestionNotFound && final(store).same_state(
                *old(store),
            ))
        })),
{
    let title = match check_profanity(title_moderation) {
        Ok(res) => res,
        Err(e) => return Err(e),
    };
    let content = match check_profanity(content_moderation) {
        Ok(res) => res,
        Err(e) => return Err(e),
    };
    let sanitized = Question { id: question.id, title, content, tags: question.tags };
    store.update_question(sanitized, QuestionId(id))
}

/// Deletes the question under the path-supplied identifier; an
/// unknown identifier fails with `QuestionNotFound` and leaves the
/// store unchanged.
pub fn delete_question(id: String, store: &mut Store) -> (r: Result<(), Error>)
    requires
        old(store).wf(),
    ensures
        final(store).wf(),
        r is Ok <==> has_question_id(old(store).questions_view(), id@),
        r is Ok ==> exists|i: int|
            0 <= i < old(store).questions_view().len() && old(store).questions_view()[i].id == id@
                && final(store).questions_view() == old(store).questions_view().remove(i),
        r is Ok ==> !has_question_id(final(store).questions_view(), id@),
        r matches Err(e) ==> (e is QuestionNotFound && final(store).same_state(*old(store))),
{
    store.delete_question(QuestionId(id))
}

} // verus!
