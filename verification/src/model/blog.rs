//! Blog posts and the queries that read them.

use vstd::prelude::*;

use crate::model::id::{DocumentId, Timestamp};
use crate::validation::{fault, length_at_least, verdict, Field};

verus! {

/// A blog post. `_id` and `created_at` are absent in a request body and set
/// when the post is created.
#[derive(Clone, Debug, PartialEq, Eq)]
pub struct Blog {
    pub _id: Option<DocumentId>,
    pub title: String,
    pub content: String,
    pub created_at: Option<Timestamp>,
}

/// A blog post as a mathematical value.
pub struct BlogView {
    pub id: Option<Seq<u8>>,
    pub title: Seq<char>,
    pub content: Seq<char>,
    pub created_at: Option<int>,
}

impl View for Blog {
    type V = BlogView;

    open spec fn view(&self) -> BlogView {
        BlogView {
            id: match self._id {
                Some(id) => Some(id.bytes@),
                None => None,
            },
            title: self.title@,
            content: self.content@,
            created_at: match self.created_at {
                Some(at) => Some(at.millis as int),
                None => None,
            },
        }
    }
}

impl BlogView {
    /// The fields that break a rule: the title must not be empty, the content
    /// has at least five characters.
    pub open spec fn faults(self) -> Seq<Field> {
        fault(self.title.len() >= 1, Field::Title) + fault(self.content.len() >= 5, Field::Content)
    }

    /// Whether the post keeps both rules.
    pub open spec fn valid(self) -> bool {
        self.title.len() >= 1 && self.content.len() >= 5
    }
}

impl Blog {
    /// Holds a request body to the rules and lists the fields that break one.
    pub fn validate(&self) -> (checked: Result<(), Vec<Field>>)
        ensures
            checked is Ok <==> self@.valid(),
            checked matches Err(listed) ==> listed@ == self@.faults(),
    {
        let mut faults: Vec<Field> = Vec::new();
        if !length_at_least(self.title.as_str(), 1) {
            faults.push(Field::Title);
        }
        if !length_at_least(self.content.as_str(), 5) {
            faults.push(Field::Content);
        }
        assert(faults@ =~= self@.faults());
        verdict(faults)
    }
}

/// The query of a request for one post.
#[derive(Clone, Debug, PartialEq, Eq)]
pub struct BlogOneQuery {
    pub id: String,
}

/// The query of a request for a page of posts: an optional pattern for the
/// title, the page size and the page number, which counts from 1.
#[derive(Clone, Debug, PartialEq, Eq)]
pub struct BlogQuery {
    pub q: Option<String>,
    pub limit: u16,
    pub page: u16,
}

} // verus!
