//! A model of the document store, as far as the handlers rely on it, and the
//! laws that handlers and store keep together.
//!
//! The store itself is reached by the server, not by this library. The model
//! says what a store answers that keeps identifiers unique, finds what was
//! inserted, sets only the fields it is asked to set, and reads a page as
//! the posts behind the skipped ones, up to the limit.

use vstd::prelude::*;

use crate::controllers::blog::{found_answer, malformed_id, skip_of, stamped, stored};
use crate::controllers::user::{email_answer, enrols, username_answer};
use crate::hex;
use crate::http::{failure, BodyView, ResponseView};
use crate::model::blog::BlogView;
use crate::model::id::{lemma_written_id_reads_back, parse_spec};
use crate::model::user::UserView;

verus! {

/// Whether some post of the collection has the identifier.
pub open spec fn holds_id(blogs: Seq<BlogView>, id: Seq<u8>) -> bool {
    exists|i: int| 0 <= i < blogs.len() && (#[trigger] blogs[i]).id == Some(id)
}

/// Whether no two posts of the collection share an identifier.
pub open spec fn distinct_ids(blogs: Seq<BlogView>) -> bool {
    forall|i: int, j: int|
        0 <= i < blogs.len() && 0 <= j < blogs.len() && i != j ==> (#[trigger] blogs[i]).id != (
        #[trigger] blogs[j]).id
}

/// The post with the identifier, if the collection holds one.
pub open spec fn find_by_id(blogs: Seq<BlogView>, id: Seq<u8>) -> Option<BlogView> {
    if holds_id(blogs, id) {
        Some(blogs[choose|i: int| 0 <= i < blogs.len() && (#[trigger] blogs[i]).id == Some(id)])
    } else {
        None
    }
}

/// The collection after the insertion of a post; `None` where the store
/// refuses it because its identifier is in use.
pub open spec fn inserted(blogs: Seq<BlogView>, post: BlogView) -> Option<Seq<BlogView>> {
    match post.id {
        Some(id) => if holds_id(blogs, id) {
            None
        } else {
            Some(blogs.push(post))
        },
        None => None,
    }
}

/// The collection after an update: the post with the identifier has the new
/// title and content, and everything else is as it was.
pub open spec fn with_fields_set(
    blogs: Seq<BlogView>,
    id: Seq<u8>,
    title: Seq<char>,
    content: Seq<char>,
) -> Seq<BlogView> {
    Seq::new(
        blogs.len(),
        |i: int|
            if blogs[i].id == Some(id) {
                BlogView { id: blogs[i].id, title, content, created_at: blogs[i].created_at }
            } else {
                blogs[i]
            },
    )
}

/// The answer to a request for the post that `text` names, over a
/// collection: the identifier is read from the text, looked up, and answered
/// as `found_answer` says; a text that names no identifier is refused with
/// status 400.
pub open spec fn fetched(blogs: Seq<BlogView>, text: Seq<char>) -> ResponseView {
    match parse_spec(text) {
        Some(id) => found_answer(find_by_id(blogs, id)),
        None => failure(400, malformed_id()),
    }
}

/// A post that was created is found again under the identifier that the
/// response to its creation names, with the title and the content it was
/// created with.
pub proof fn lemma_created_post_reads_back(
    blogs: Seq<BlogView>,
    body: BlogView,
    id: Seq<u8>,
    now: int,
)
    requires
        distinct_ids(blogs),
        id.len() == 12,
        inserted(blogs, stamped(body, id, now)) is Some,
    ensures
        stored(id).body == (BodyView::Post { success: 1, id: hex::encode(id) }),
        fetched(inserted(blogs, stamped(body, id, now))->0, hex::encode(id)) == (ResponseView {
            status: 200,
            body: BodyView::Blog(stamped(body, id, now)),
        }),
        stamped(body, id, now).title == body.title,
        stamped(body, id, now).content == body.content,
        distinct_ids(inserted(blogs, stamped(body, id, now))->0),
{
    let post = stamped(body, id, now);
    let after = blogs.push(post);
    lemma_written_id_reads_back(id);
    assert(after[blogs.len() as int].id == Some(id));
    assert forall|i: int, j: int|
        0 <= i < after.len() && 0 <= j < after.len() && i != j implies (#[trigger] after[i]).id != (
    #[trigger] after[j]).id by {
        if i < blogs.len() && j < blogs.len() {
            assert(blogs[i].id != blogs[j].id);
        } else if i < blogs.len() {
            assert(blogs[i].id != Some(id));
        } else {
            assert(blogs[j].id != Some(id));
        }
    }
    let at = choose|i: int| 0 <= i < after.len() && (#[trigger] after[i]).id == Some(id);
    assert(at == blogs.len()) by {
        if at < blogs.len() {
            assert(blogs[at].id == Some(id));
        }
    }
}

/// An update sets the title and the content of the post it names and keeps
/// every post's identifier and creation time; the posts it does not name are
/// as they were.
pub proof fn lemma_update_keeps_identity(
    blogs: Seq<BlogView>,
    id: Seq<u8>,
    title: Seq<char>,
    content: Seq<char>,
)
    requires
        distinct_ids(blogs),
    ensures
        ({
            let after = with_fields_set(blogs, id, title, content);
            &&& after.len() == blogs.len()
            &&& distinct_ids(after)
            &&& forall|i: int|
                0 <= i < blogs.len() ==> (#[trigger] after[i]).id == blogs[i].id && after[i].created_at
                    == blogs[i].created_at
            &&& forall|other: Seq<u8>|
                other != id ==> #[trigger] find_by_id(after, other) == find_by_id(blogs, other)
            &&& match find_by_id(blogs, id) {
                Some(before) => find_by_id(after, id) == Some(
                    BlogView { id: Some(id), title, content, created_at: before.created_at },
                ),
                None => find_by_id(after, id) is None,
            }
        }),
{
    let after = with_fields_set(blogs, id, title, content);
    assert forall|i: int, j: int|
        0 <= i < after.len() && 0 <= j < after.len() && i != j implies (#[trigger] after[i]).id != (
    #[trigger] after[j]).id by {
        assert(blogs[i].id != blogs[j].id);
    }
    assert forall|other: Seq<u8>| holds_id(after, other) == holds_id(blogs, other) by {
        if holds_id(blogs, other) {
            let i = choose|i: int| 0 <= i < blogs.len() && (#[trigger] blogs[i]).id == Some(other);
            assert(after[i].id == Some(other));
        }
        if holds_id(after, other) {
            let i = choose|i: int| 0 <= i < after.len() && (#[trigger] after[i]).id == Some(other);
            assert(blogs[i].id == Some(other));
        }
    }
    assert forall|other: Seq<u8>| other != id implies #[trigger] find_by_id(after, other)
        == find_by_id(blogs, other) by {
        if holds_id(blogs, other) {
            let i = choose|i: int| 0 <= i < blogs.len() && (#[trigger] blogs[i]).id == Some(other);
            let j = choose|j: int| 0 <= j < after.len() && (#[trigger] after[j]).id == Some(other);
            assert(blogs[j].id == Some(other));
            assert(i == j) by {
                if i != j {
                    assert(blogs[i].id != blogs[j].id);
                }
            }
        }
    }
    if holds_id(blogs, id) {
        let i = choose|i: int| 0 <= i < blogs.len() && (#[trigger] blogs[i]).id == Some(id);
        let j = choose|j: int| 0 <= j < after.len() && (#[trigger] after[j]).id == Some(id);
        assert(blogs[j].id == Some(id));
        assert(i == j) by {
            if i != j {
                assert(blogs[i].id != blogs[j].id);
            }
        }
    }
}

/// The page that a store reads from the posts that match, in their order:
/// the first `skip` are left out and `limit` of the rest are read, or all of
/// the rest where the limit is 0.
pub open spec fn page_of(ordered: Seq<BlogView>, skip: int, limit: int) -> Seq<BlogView> {
    let from = if skip < ordered.len() {
        skip
    } else {
        ordered.len() as int
    };
    let to = if limit == 0 || from + limit > ordered.len() {
        ordered.len() as int
    } else {
        from + limit
    };
    ordered.subrange(from, to)
}

/// Whether a post created at `earlier` may stand before one created at
/// `later` when the newest comes first; a post without a creation time
/// counts as the oldest.
pub open spec fn not_older(earlier: Option<int>, later: Option<int>) -> bool {
    match (earlier, later) {
        (_, None) => true,
        (None, Some(_)) => false,
        (Some(a), Some(b)) => a >= b,
    }
}

/// Whether the posts stand in the order of their creation, the newest first.
pub open spec fn newest_first(posts: Seq<BlogView>) -> bool {
    forall|i: int, j: int|
        0 <= i < j < posts.len() ==> not_older(
            (#[trigger] posts[i]).created_at,
            (#[trigger] posts[j]).created_at,
        )
}

/// Page `page` of size `limit`, for a limit of at least 1 and pages counted
/// from 1, holds at most `limit` posts; its posts are those of the whole
/// listing from position `(page - 1) * limit` on, in the same order; and a
/// page that is not full is the last one that holds anything.
pub proof fn lemma_page_is_a_window(ordered: Seq<BlogView>, limit: u16, page: u16)
    requires
        limit >= 1,
        page >= 1,
    ensures
        ({
            let shown = page_of(ordered, skip_of(page as int, limit as int), limit as int);
            &&& shown.len() <= limit
            &&& forall|i: int|
                0 <= i < shown.len() ==> #[trigger] shown[i] == ordered[(page - 1) * limit + i]
            &&& newest_first(ordered) ==> newest_first(shown)
            &&& shown.len() < limit ==> page_of(
                ordered,
                skip_of(page + 1, limit as int),
                limit as int,
            ).len() == 0
        }),
{
    let skip = skip_of(page as int, limit as int);
    assert(skip == (page - 1) * limit);
    assert(skip >= 0) by (nonlinear_arith)
        requires
            skip == (page - 1) * limit,
            page >= 1,
            limit >= 1,
    ;
    assert(skip_of(page + 1, limit as int) == skip + limit) by (nonlinear_arith)
        requires
            skip == (page - 1) * limit,
            skip_of(page + 1, limit as int) == page * limit,
    ;
    let shown = page_of(ordered, skip, limit as int);
    if newest_first(ordered) {
        assert forall|i: int, j: int| 0 <= i < j < shown.len() implies not_older(
            (#[trigger] shown[i]).created_at,
            (#[trigger] shown[j]).created_at,
        ) by {
            assert(shown[i] == ordered[skip + i]);
            assert(shown[j] == ordered[skip + j]);
        }
    }
}

/// Whether some user of the collection has the username.
pub open spec fn username_in(users: Seq<UserView>, username: Seq<char>) -> bool {
    exists|i: int| 0 <= i < users.len() && (#[trigger] users[i]).username == username
}

/// Whether some user of the collection has the email.
pub open spec fn email_in(users: Seq<UserView>, email: Seq<char>) -> bool {
    exists|i: int| 0 <= i < users.len() && (#[trigger] users[i]).email == email
}

/// The refusal of a registration over a collection of users, if it is
/// refused: the username is looked up first, then the email.
pub open spec fn registration_refusal(users: Seq<UserView>, user: UserView) -> Option<ResponseView> {
    match username_answer(username_in(users, user.username)) {
        Some(refusal) => Some(refusal),
        None => email_answer(email_in(users, user.email)),
    }
}

/// Once a user is registered, a second registration under the same username
/// or the same email is refused with `success: 0`: with status 400 for the
/// username, with status 200 for the email alone.
pub proof fn lemma_second_registration_is_refused(
    users: Seq<UserView>,
    first: UserView,
    record: UserView,
    second: UserView,
)
    requires
        enrols(first, record),
        second.username == first.username || second.email == first.email,
    ensures
        registration_refusal(users.push(record), second) matches Some(refusal) && refusal.body
            matches BodyView::Message { success, .. } && success == 0,
        second.username == first.username ==> registration_refusal(users.push(record), second)->0.status
            == 400,
        second.username != first.username && !username_in(users, second.username)
            ==> registration_refusal(users.push(record), second)->0.status == 200,
{
    let after = users.push(record);
    assert(after[users.len() as int] == record);
    if second.username != first.username && !username_in(users, second.username) {
        assert(!username_in(after, second.username)) by {
            if username_in(after, second.username) {
                let i = choose|i: int|
                    0 <= i < after.len() && (#[trigger] after[i]).username == second.username;
                if i < users.len() {
                    assert(users[i].username == second.username);
                }
            }
        }
    }
}

} // verus!
