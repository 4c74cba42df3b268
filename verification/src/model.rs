//! What the upstream answers: a batch of questions, each with its owner.

use vstd::prelude::*;

verus! {

/// The account that asked a question.
#[derive(Debug, Clone, PartialEq, Eq)]
pub struct Owner {
    pub reputation: u64,
    pub user_id: u64,
    pub user_type: String,
    pub accept_rate: Option<u32>,
    pub profile_image: String,
    pub display_name: String,
    pub link: String,
}

/// One question, as the upstream lists it.
#[derive(Debug, Clone, PartialEq, Eq)]
pub struct Question {
    pub title: String,
    pub link: String,
    pub score: i32,
    pub question_id: u64,
    pub creation_date: u64,
    pub owner: Owner,
    pub tags: Vec<String>,
    pub is_answered: bool,
    pub view_count: u64,
}

/// One page of questions, in the order in which the upstream gave them, with
/// the paging and quota figures that came along.
#[derive(Debug, Clone, PartialEq, Eq)]
pub struct Response {
    pub has_more: bool,
    pub quota_max: u32,
    pub quota_remaining: u32,
    pub items: Vec<Question>,
}

/// An [`Owner`] as a mathematical value.
pub struct OwnerView {
    pub reputation: u64,
    pub user_id: u64,
    pub user_type: Seq<char>,
    pub accept_rate: Option<u32>,
    pub profile_image: Seq<char>,
    pub display_name: Seq<char>,
    pub link: Seq<char>,
}

/// A [`Question`] as a mathematical value.
pub struct QuestionView {
    pub title: Seq<char>,
    pub link: Seq<char>,
    pub score: i32,
    pub question_id: u64,
    pub creation_date: u64,
    pub owner: OwnerView,
    pub tags: Seq<Seq<char>>,
    pub is_answered: bool,
    pub view_count: u64,
}

/// A [`Response`] as a mathematical value.
pub struct ResponseView {
    pub has_more: bool,
    pub quota_max: u32,
    pub quota_remaining: u32,
    pub items: Seq<QuestionView>,
}

impl View for Owner {
    type V = OwnerView;

    open spec fn view(&self) -> OwnerView {
        OwnerView {
            reputation: self.reputation,
            user_id: self.user_id,
            user_type: self.user_type@,
            accept_rate: self.accept_rate,
            profile_image: self.profile_image@,
            display_name: self.display_name@,
            link: self.link@,
        }
    }
}

impl View for Question {
    type V = QuestionView;

    open spec fn view(&self) -> QuestionView {
        QuestionView {
            title: self.title@,
            link: self.link@,
            score: self.score,
            question_id: self.question_id,
            creation_date: self.creation_date,
            owner: self.owner@,
            tags: Seq::new(self.tags@.len(), |i: int| self.tags@[i]@),
            is_answered: self.is_answered,
            view_count: self.view_count,
        }
    }
}

/// The questions of a vector as mathematical values, in the vector's order.
pub open spec fn questions_view(items: Seq<Question>) -> Seq<QuestionView> {
    Seq::new(items.len(), |i: int| items[i]@)
}

impl View for Response {
    type V = ResponseView;

    open spec fn view(&self) -> ResponseView {
        ResponseView {
            has_more: self.has_more,
            quota_max: self.quota_max,
            quota_remaining: self.quota_remaining,
            items: questions_view(self.items@),
        }
    }
}

} // verus!
