//! Answer records, their input-only projection, and their
//! mathematical views.

use vstd::prelude::*;

use crate::types::question::QuestionId;

verus! {

/// Opaque identifier of an answer; the store derives it from an
/// insertion counter.
#[derive(Debug, Clone, Copy, PartialEq, Eq, Hash, Structural)]
pub struct AnswerId(pub i32);

/// Mathematical view of an answer record.
pub ghost struct AnswerView {
    pub id: int,
    pub content: Seq<char>,
    pub question_id: Seq<char>,
}

/// A stored answer: identifier, content, and the question it answers.
#[derive(Debug)]
pub struct Answer {
    pub id: AnswerId,
    pub content: String,
    pub question_id: QuestionId,
}

impl View for Answer {
    type V = AnswerView;

    open spec fn view(&self) -> AnswerView {
        AnswerView { id: self.id.0 as int, content: self.content@, question_id: self.question_id@ }
    }
}

impl DeepView for Answer {
    type V = AnswerView;

    open spec fn deep_view(&self) -> AnswerView {
        self.view()
    }
}

impl Clone for Answer {
    fn clone(&self) -> (r: Self)
        ensures
            r@ == self@,
    {
        Answer {
            id: self.id,
            content: self.content.clone(),
            question_id: self.question_id.clone(),
        }
    }
}

/// Mathematical view of an answer that has not been stored yet.
pub ghost struct NewAnswerView {
    pub content: Seq<char>,
    pub question_id: Seq<char>,
}

/// Input-only projection of an answer: the store assigns the
/// identifier on insert.
#[derive(Debug)]
pub struct NewAnswer {
    pub content: String,
    pub question_id: QuestionId,
}

impl View for NewAnswer {
    type V = NewAnswerView;

    open spec fn view(&self) -> NewAnswerView {
        NewAnswerView { content: self.content@, question_id: self.question_id@ }
    }
}

impl Clone for NewAnswer {
    fn clone(&self) -> (r: Self)
        ensures
            r@ == self@,
    {
        NewAnswer { content: self.content.clone(), question_id: self.question_id.clone() }
    }
}

} // verus!
