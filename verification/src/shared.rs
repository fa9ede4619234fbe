//! The store as request-handling tasks share it: the collections sit
//! behind a readers-writer lock whose invariant is the store's
//! well-formedness, so concurrent readers and an exclusive writer see
//! only well-formed states and no insertion is lost to another. Each
//! operation holds the lock for a single store call; moderation
//! outcomes arrive as arguments, so the lock is never held across the
//! external call.

use vstd::prelude::*;
use vstd::rwlock::{RwLock, RwLockPredicate};

use crate::errors::Error;
use crate::profanity::{check_profanity, moderation_result, ModerationOutcome};
use crate::routes;
use crate::store::Store;
use crate::types::answer::{Answer, NewAnswer};
use crate::types::pagination::pagination_of;
use crate::types::question::{NewQuestion, Question};

verus! {

/// The lock's invariant: only well-formed stores go in.
pub struct WellFormedStore;

impl RwLockPredicate<Store> for WellFormedStore {
    open spec fn inv(self, v: Store) -> bool {
        v.wf()
    }
}

/// A store shared by concurrent tasks: many readers or one exclusive
/// writer, every operation atomic at the single-record granularity.
pub struct SharedStore {
    lock: RwLock<Store, WellFormedStore>,
}

impl SharedStore {
    /// The lock admits exactly the well-formed stores.
    pub closed spec fn wf(self) -> bool {
        self.lock.pred() == WellFormedStore
    }

    /// Creates a shared store over an empty store.
    pub fn new() -> (s: SharedStore)
        ensures
            s.wf(),
    {
        SharedStore { lock: RwLock::new(Store::new(), Ghost(WellFormedStore)) }
    }

    /// Lists questions under a read lock; success is owed exactly as
    /// the pagination extractor decides, whatever other tasks did to
    /// the records meanwhile.
    pub fn get_questions(&self, params: Vec<(String, String)>) -> (r: Result<Vec<Question>, Error>)
        requires
            self.wf(),
        ensures
            params@.len() == 0 ==> r is Ok,
            params@.len() > 0 ==> match pagination_of(params@) {
                Ok(p) => r is Ok,
                Err(e) => r == Err::<Vec<Question>, Error>(e),
            },
    {
        let read_handle = self.lock.acquire_read();
        let r = routes::question::get_questions(params, read_handle.borrow());
        read_handle.release_read();
        r
    }

    /// Adds a question under the write lock. A failed moderation
    /// check aborts with its classified error; with both checks
    /// passed, the stored record carries exactly the censored text,
    /// and only identifier exhaustion is refused.
    pub fn add_question(
        &self,
        new_question: NewQuestion,
        title_moderation: ModerationOutcome,
        content_moderation: ModerationOutcome,
    ) -> (r: Result<Question, Error>)
        requires
            self.wf(),
        ensures
            moderation_result(title_moderation) matches Err(e) ==> r == Err::<Question, Error>(e),
            moderation_result(title_moderation) is Ok ==> (moderation_result(content_moderation)
                matches Err(e) ==> r == Err::<Question, Error>(e)),
            moderation_result(title_moderation) matches Ok(title) ==> (moderation_result(
                content_moderation,
            ) matches Ok(content) ==> ({
                &&& r is Ok || r == Err::<Question, Error>(Error::DatabaseQueryError)
                &&& r matches Ok(q) ==> ({
                    &&& q@.title == title@
                    &&& q@.content == content@
                    &&& q@.tags == new_question@.tags
                })
            })),
    {
        let (mut store, write_handle) = self.lock.acquire_write();
        let r = if store.can_add_question() {
            routes::question::add_question(
                &mut store,
                new_question,
                title_moderation,
                content_moderation,
            )
        } else {
            match check_profanity(title_moderation) {
                Err(e) => Err(e),
                Ok(_) => match check_profanity(content_moderation) {
                    Err(e) => Err(e),
                    Ok(_) => Err(Error::DatabaseQueryError),
                },
            }
        };
        write_handle.release_write(store);
        r
    }

    /// Updates the question under `id` with censored text, under the
    /// write lock; the only failure beyond the moderation checks is
    /// `QuestionNotFound`.
    pub fn update_question(
        &self,
        id: String,
        question: Question,
        title_moderation: ModerationOutcome,
        content_moderation: ModerationOutcome,
    ) -> (r: Result<Question, Error>)
        requires
            self.wf(),
        ensures
            moderation_result(title_moderation) matches Err(e) ==> r == Err::<Question, Error>(e),
            moderation_result(title_moderation) is Ok ==> (moderation_result(content_moderation)
                matches Err(e) ==> r == Err::<Question, Error>(e)),
            moderation_result(title_moderation) matches Ok(title) ==> (moderation_result(
                content_moderation,
            ) matches Ok(content) ==> ({
                &&& r matches Ok(q) ==> ({
                    &&& q@.id == id@
                    &&& q@.title == title@
                    &&& q@.content == content@
                    &&& q@.tags == question@.tags
                })
                &&& r matches Err(e) ==> e is QuestionNotFound
            })),
    {
        let (mut store, write_handle) = self.lock.acquire_write();
        let r = routes::question::update_question(
            id,
            &mut store,
            question,
            title_moderation,
            content_moderation,
        );
        write_handle.release_write(store);
        r
    }

    /// Deletes the question under `id`, under the write lock; the
    /// only failure is `QuestionNotFound`.
    pub fn delete_question(&self, id: String) -> (r: Result<(), Error>)
        requires
            self.wf(),
        ensures
            r matches Err(e) ==> e is QuestionNotFound,
    {
        let (mut store, write_handle) = self.lock.acquire_write();
        let r = routes::question::delete_question(id, &mut store);
        write_handle.release_write(store);
        r
    }

    /// Adds an answer under the write lock. A failed moderation check
    /// aborts with its classified error; otherwise the stored record
    /// carries exactly the censored text, and only identifier
    /// exhaustion is refused.
    pub fn add_answer(
        &self,
        new_answer: NewAnswer,
        content_moderation: ModerationOutcome,
    ) -> (r: Result<Answer, Error>)
        requires
            self.wf(),
        ensures
            moderation_result(content_moderation) matches Err(e) ==> r == Err::<Answer, Error>(e),
            moderation_result(content_moderation) matches Ok(content) ==> ({
                &&& r is Ok || r == Err::<Answer, Error>(Error::DatabaseQueryError)
                &&& r matches Ok(a) ==> ({
                    &&& a@.content == content@
                    &&& a@.question_id == new_answer@.question_id
                })
            }),
    {
        let (mut store, write_handle) = self.lock.acquire_write();
        let r = if store.can_add_answer() {
            routes::answer::add_answer(&mut store, new_answer, content_moderation)
        } else {
            match check_profanity(content_moderation) {
                Err(e) => Err(e),
                Ok(_) => Err(Error::DatabaseQueryError),
            }
        };
        write_handle.release_write(store);
        r
    }
}

} // verus!
