//! Handler for the answer route: moderation classification of the
//! content followed by the store insertion.

use vstd::prelude::*;

use crate::errors::Error;
use crate::profanity::{check_profanity, moderation_result, ModerationOutcome};
use crate::store::Store;
use crate::types::answer::{Answer, NewAnswer};

verus! {

/// Adds an answer: the moderation outcome for the content is
/// classified first, and only when it passed is the censored record
/// stored; a failed check aborts the operation with its classified
/// error and nothing is persisted. Whether the referenced question
/// exists is deliberately not checked.
pub fn add_answer(
    store: &mut Store,
    new_answer: NewAnswer,
    content_moderation: ModerationOutcome,
) -> (r: Result<Answer, Error>)
    requires
        old(store).wf(),
        old(store).can_assign_answer_id(),
    ensures
        final(store).wf(),
        moderation_result(content_moderation) matches Err(e) ==> (r == Err::<Answer, Error>(e)
            && final(store).same_state(*old(store))),
        moderation_result(content_moderation) matches Ok(content) ==> ({
            &&& r is Ok
            &&& r matches Ok(a) ==> ({
                &&& a@.id == old(store).answer_counter()
                &&& a@.content == content@
                &&& a@.question_id == new_answer@.question_id
                &&& final(store).answers_view() == old(store).answers_view().push(a@)
            })
            &&& final(store).questions_view() == old(store).questions_view()
        }),
{
    let content = match check_profanity(content_moderation) {
        Ok(res) => res,
        Err(e) => return Err(e),
    };
    let answer = NewAnswer { content, question_id: new_answer.question_id };
    store.add_answer(answer)
}

} // verus!
