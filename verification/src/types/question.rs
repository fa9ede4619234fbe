//! Question records, their input-only projection, and their
//! mathematical views.

use vstd::prelude::*;

verus! {

/// Opaque identifier of a question; the store derives it from an
/// insertion counter and it never changes after creation.
#[derive(Debug, Eq, Hash)]
pub struct QuestionId(pub String);

impl View for QuestionId {
    type V = Seq<char>;

    open spec fn view(&self) -> Seq<char> {
        self.0@
    }
}

impl PartialEq for QuestionId {
    fn eq(&self, other: &Self) -> (r: bool) {
        self.0 == other.0
    }
}

impl vstd::std_specs::cmp::PartialEqSpecImpl for QuestionId {
    open spec fn obeys_eq_spec() -> bool {
        true
    }

    open spec fn eq_spec(&self, other: &Self) -> bool {
        self.0@ == other.0@
    }
}

impl Clone for QuestionId {
    fn clone(&self) -> (r: Self)
        ensures
            r == *self,
    {
        QuestionId(self.0.clone())
    }
}

/// Mathematical view of a question record.
pub ghost struct QuestionView {
    pub id: Seq<char>,
    pub title: Seq<char>,
    pub content: Seq<char>,
    pub tags: Option<Seq<Seq<char>>>,
}

/// A stored question: identifier, title, content, and optional tags.
#[derive(Debug)]
pub struct Question {
    pub id: QuestionId,
    pub title: String,
    pub content: String,
    pub tags: Option<Vec<String>>,
}

impl View for Question {
    type V = QuestionView;

    open spec fn view(&self) -> QuestionView {
        QuestionView {
            id: self.id@,
            title: self.title@,
            content: self.content@,
            tags: match self.tags {
                Some(ts) => Some(ts.deep_view()),
                None => None,
            },
        }
    }
}

impl DeepView for Question {
    type V = QuestionView;

    open spec fn deep_view(&self) -> QuestionView {
        self.view()
    }
}

/// Clones a tag list, preserving its view.
fn clone_tags(tags: &Option<Vec<String>>) -> (r: Option<Vec<String>>)
    ensures
        match *tags {
            Some(ts) => r matches Some(rs) && rs.deep_view() == ts.deep_view(),
            None => r is None,
        },
{
    match tags {
        Some(ts) => {
            let rs = ts.clone();
            proof {
                assert forall|i: int| 0 <= i < rs@.len() implies rs@[i]@ == ts@[i]@ by {
                    assert(cloned::<String>(ts@[i], rs@[i]));
                }
                assert(rs.deep_view() =~= ts.deep_view());
            }
            Some(rs)
        },
        None => None,
    }
}

impl Clone for Question {
    fn clone(&self) -> (r: Self)
        ensures
            r@ == self@,
    {
        Question {
            id: self.id.clone(),
            title: self.title.clone(),
            content: self.content.clone(),
            tags: clone_tags(&self.tags),
        }
    }
}

/// Mathematical view of a question that has not been stored yet.
pub ghost struct NewQuestionView {
    pub title: Seq<char>,
    pub content: Seq<char>,
    pub tags: Option<Seq<Seq<char>>>,
}

/// Input-only projection of a question: the store assigns the
/// identifier on insert.
#[derive(Debug)]
pub struct NewQuestion {
    pub title: String,
    pub content: String,
    pub tags: Option<Vec<String>>,
}

impl View for NewQuestion {
    type V = NewQuestionView;

    open spec fn view(&self) -> NewQuestionView {
        NewQuestionView {
            title: self.title@,
            content: self.content@,
            tags: match self.tags {
                Some(ts) => Some(ts.deep_view()),
                None => None,
            },
        }
    }
}

impl Clone for NewQuestion {
    fn clone(&self) -> (r: Self)
        ensures
            r@ == self@,
    {
        NewQuestion {
            title: self.title.clone(),
            content: self.content.clone(),
            tags: clone_tags(&self.tags),
        }
    }
}

} // verus!
