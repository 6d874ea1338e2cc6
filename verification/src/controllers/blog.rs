//! The blog handlers: create, update, fetch one, fetch a page, and upload an
//! image. Each decides what to ask of the store or the disk, and what to
//! answer once that is done.

use vstd::prelude::*;

use crate::http::{failure, Abort, Body, BodyView, Response, ResponseView, Step};
use crate::model::blog::{Blog, BlogOneQuery, BlogQuery, BlogView};
use crate::model::id::{parse_spec, DocumentId, Timestamp};
use crate::model::user::AuthorizedUser;
use crate::text::starts_with;

verus! {

/// A JSON body `{success, id}`.
#[derive(Clone, Debug, PartialEq, Eq)]
pub struct PostResponse {
    pub success: i8,
    pub id: String,
}

/// The two links to an uploaded image.
#[derive(Clone, Debug, PartialEq, Eq)]
pub struct ImageData {
    pub url: String,
    pub href: String,
}

/// A JSON body `{errno, data: {url, href}}`.
#[derive(Clone, Debug, PartialEq, Eq)]
pub struct UploadResponse {
    pub errno: i8,
    pub data: ImageData,
}

/// The message for a request that needs a principal and has none.
pub open spec fn auth_failed() -> Seq<char> {
    "对不起，认证失败！"@
}

/// The message for a post that the store does not hold.
pub open spec fn post_missing() -> Seq<char> {
    "本博文已经不存在了！"@
}

/// The message for an upload that is not an image.
pub open spec fn images_only() -> Seq<char> {
    "仅能上传图片"@
}

/// The message for an upload without a file part.
pub open spec fn upload_failed() -> Seq<char> {
    "上传失败，请重试！"@
}

/// The response `{success: 1, id}` with status 200 that names a stored post.
pub open spec fn stored(id: Seq<u8>) -> ResponseView {
    ResponseView { status: 200, body: BodyView::Post { success: 1, id: crate::hex::encode(id) } }
}

/// The 401 response for a request without a principal.
pub fn unauthorized() -> (response: Response)
    ensures
        response@ == failure(401, auth_failed()),
{
    Response::failed(401, String::from_str("对不起，认证失败！"))
}

/// The response that names a stored post.
fn stored_as(id: &DocumentId) -> (response: Response)
    ensures
        response@ == stored(id.bytes@),
{
    Response { status: 200, body: Body::Post(PostResponse { success: 1, id: id.to_hex() }) }
}

/// The post that `create` stores for a request body: the body's title and
/// content under the given identifier and creation time.
pub open spec fn stamped(blog: BlogView, id: Seq<u8>, now: int) -> BlogView {
    BlogView { id: Some(id), title: blog.title, content: blog.content, created_at: Some(now) }
}

/// Decides a create request, given the identifier and the creation time for
/// the new post: 401 without a principal; otherwise the post to insert.
pub fn create_at(
    authorized_user: &Option<AuthorizedUser>,
    blog: Blog,
    id: DocumentId,
    now: Timestamp,
) -> (step: Step<Blog>)
    ensures
        match step {
            Step::Reply(response) => authorized_user is None && response@ == failure(
                401,
                auth_failed(),
            ),
            Step::Proceed(post) => authorized_user is Some && post@ == stamped(
                blog@,
                id.bytes@,
                now.millis as int,
            ),
        },
{
    if authorized_user.is_none() {
        return Step::Reply(unauthorized());
    }
    Step::Proceed(
        Blog { _id: Some(id), title: blog.title, content: blog.content, created_at: Some(now) },
    )
}

/// Decides a create request: 401 without a principal; otherwise the post to
/// insert, which is the request body under a fresh identifier and the current
/// time.
pub fn create(authorized_user: &Option<AuthorizedUser>, blog: Blog) -> (step: Step<Blog>)
    ensures
        match step {
            Step::Reply(response) => authorized_user is None && response@ == failure(
                401,
                auth_failed(),
            ),
            Step::Proceed(post) => {
                &&& authorized_user is Some
                &&& post@.id matches Some(id)
                &&& post@.created_at matches Some(now)
                &&& post@ == stamped(blog@, id, now)
            },
        },
{
    if authorized_user.is_none() {
        return Step::Reply(unauthorized());
    }
    create_at(authorized_user, blog, DocumentId::generate(), Timestamp::now())
}

/// Answers a create request once the store has answered: `{success: 1, id}`
/// with the inserted identifier, or `{success: 0, message}` with the store's
/// error, both with status 200.
pub fn created(outcome: Result<DocumentId, String>) -> (response: Response)
    ensures
        response@ == match outcome {
            Ok(id) => stored(id.bytes@),
            Err(message) => failure(200, message@),
        },
{
    match outcome {
        Ok(id) => stored_as(&id),
        Err(message) => Response::failed(200, message),
    }
}

/// What an update asks of the store: to set the title and the content of the
/// post with the given identifier, and nothing else.
#[derive(Clone, Debug, PartialEq, Eq)]
pub struct BlogUpdate {
    pub id: DocumentId,
    pub title: String,
    pub content: String,
}

/// Decides an update request: 401 without a principal; otherwise the update
/// named by the body's identifier, title and content. A body without an
/// identifier cannot be served.
pub fn update(authorized_user: &Option<AuthorizedUser>, blog: &Blog) -> (step: Result<
    Step<BlogUpdate>,
    Abort,
>)
    ensures
        match step {
            Ok(Step::Reply(response)) => authorized_user is None && response@ == failure(
                401,
                auth_failed(),
            ),
            Ok(Step::Proceed(change)) => {
                &&& authorized_user is Some
                &&& blog@.id == Some(change.id.bytes@)
                &&& change.title@ == blog@.title
                &&& change.content@ == blog@.content
            },
            Err(abort) => authorized_user is Some && blog@.id is None && abort == Abort::MissingId,
        },
{
    if authorized_user.is_none() {
        return Ok(Step::Reply(unauthorized()));
    }
    match blog._id {
        None => Err(Abort::MissingId),
        Some(id) => Ok(
            Step::Proceed(
                BlogUpdate { id, title: blog.title.clone(), content: blog.content.clone() },
            ),
        ),
    }
}

/// Answers an update request once the store has answered: `{success: 1, id}`
/// with the identifier that was asked for, or `{success: 0, message}` with the
/// store's error, both with status 200.
pub fn updated(id: &DocumentId, outcome: Result<(), String>) -> (response: Response)
    ensures
        response@ == match outcome {
            Ok(_) => stored(id.bytes@),
            Err(message) => failure(200, message@),
        },
{
    match outcome {
        Ok(_) => stored_as(id),
        Err(message) => Response::failed(200, message),
    }
}

/// The message for a query whose identifier cannot be read.
pub open spec fn malformed_id() -> Seq<char> {
    "invalid blog id"@
}

/// Decides a request for one post: the identifier to look up, read from the
/// query; for a query whose identifier is not 24 hexadecimal digits, a
/// refusal with status 400 and no lookup.
pub fn get_blog(query: &BlogOneQuery) -> (step: Step<DocumentId>)
    ensures
        match step {
            Step::Proceed(id) => parse_spec(query.id@) == Some(id.bytes@),
            Step::Reply(response) => parse_spec(query.id@) is None && response@ == failure(
                400,
                malformed_id(),
            ),
        },
{
    match DocumentId::parse_str(query.id.as_str()) {
        Some(id) => Step::Proceed(id),
        None => Step::Reply(Response::failed(400, String::from_str("invalid blog id"))),
    }
}

/// The answer to a request for one post, given what the store holds under
/// the identifier: the post itself, or `{success: 0, message}`; both with
/// status 200.
pub open spec fn found_answer(found: Option<BlogView>) -> ResponseView {
    match found {
        Some(post) => ResponseView { status: 200, body: BodyView::Blog(post) },
        None => failure(200, post_missing()),
    }
}

/// Answers a request for one post once the store has answered: the post as
/// found, `{success: 0, message}` where there is none or the store failed;
/// always with status 200.
pub fn blog_found(outcome: Result<Option<Blog>, String>) -> (response: Response)
    ensures
        response@ == match outcome {
            Ok(Some(blog)) => found_answer(Some(blog@)),
            Ok(None) => found_answer(None),
            Err(message) => failure(200, message@),
        },
{
    match outcome {
        Ok(Some(blog)) => Response { status: 200, body: Body::Blog(blog) },
        Ok(None) => Response::failed(200, String::from_str("本博文已经不存在了！")),
        Err(message) => Response::failed(200, message),
    }
}

/// The order in which a page of posts is read.
#[derive(Clone, Copy, Debug, PartialEq, Eq, Structural)]
pub enum Order {
    /// By creation time, the newest post first.
    NewestFirst,
}

/// A regular expression for the title, with the options it is matched under.
#[derive(Clone, Debug, PartialEq, Eq)]
pub struct TitlePattern {
    pub pattern: String,
    pub options: String,
}

/// What a request for a page of posts asks of the store: the posts whose
/// title matches the pattern (all posts without one), in the given order,
/// leaving out the first `skip` and reading `limit` of the rest.
#[derive(Clone, Debug, PartialEq, Eq)]
pub struct BlogSearch {
    pub title: Option<TitlePattern>,
    pub order: Order,
    pub skip: u64,
    pub limit: i64,
}

/// How many posts come before page `page` of size `limit`. Pages count from
/// 1; for page 0 the product `(page - 1) * limit` is negative and wraps round
/// to an unsigned 64-bit number.
pub open spec fn skip_of(page: int, limit: int) -> int {
    if page >= 1 {
        (page - 1) * limit
    } else if limit == 0 {
        0
    } else {
        0x1_0000_0000_0000_0000 - limit
    }
}

/// Turns the query of a request for a page of posts into a search: the
/// pattern, if any, with the option `x`; newest first; `skip_of` posts
/// skipped; `limit` posts read.
pub fn get_blogs(query: BlogQuery) -> (search: BlogSearch)
    ensures
        search.order == Order::NewestFirst,
        search.limit == query.limit,
        search.skip == skip_of(query.page as int, query.limit as int),
        match search.title {
            Some(title) => query.q matches Some(q) && title.pattern@ == q@ && title.options@
                == "x"@,
            None => query.q is None,
        },
{
    let limit: u64 = query.limit as u64;
    let skip: u64 = if query.page >= 1 {
        let before: u64 = (query.page - 1) as u64;
        assert(before * limit <= 0xffff * 0xffff) by (nonlinear_arith)
            requires
                before <= 0xffff,
                limit <= 0xffff,
        ;
        before * limit
    } else if limit == 0 {
        0
    } else {
        u64::MAX - limit + 1
    };
    let title = match query.q {
        Some(pattern) => Some(TitlePattern { pattern, options: String::from_str("x") }),
        None => None,
    };
    BlogSearch { title, order: Order::NewestFirst, skip, limit: query.limit as i64 }
}

/// Answers a request for a page of posts once the store has answered: the
/// posts as read, or `{success: 0, message}` with the store's error; always
/// with status 200.
pub fn blogs_found(outcome: Result<Vec<Blog>, String>) -> (response: Response)
    ensures
        response@ == match outcome {
            Ok(blogs) => ResponseView {
                status: 200,
                body: BodyView::Blogs(blogs@.map_values(|b: Blog| b@)),
            },
            Err(message) => failure(200, message@),
        },
{
    match outcome {
        Ok(blogs) => Response { status: 200, body: Body::Blogs(blogs) },
        Err(message) => Response::failed(200, message),
    }
}

/// What `str::to_lowercase` makes of a text.
pub uninterp spec fn lowercased(text: Seq<char>) -> Seq<char>;

/// Calls `str::to_lowercase`, whose result depends on the text alone.
#[verifier::external_body]
fn to_lowercase(text: &str) -> (lower: String)
    ensures
        lower@ == lowercased(text@),
{
    text.to_lowercase()
}

/// A character of a generated file stem: a hyphen or a lower-case
/// hexadecimal digit.
pub open spec fn stem_char(c: char) -> bool {
    c == '-' || ('0' <= c && c <= '9') || ('a' <= c && c <= 'f')
}

/// The shape of a generated file stem: 36 characters, each a `stem_char`.
pub open spec fn is_stem(stem: Seq<char>) -> bool {
    stem.len() == 36 && forall|i: int| 0 <= i < 36 ==> stem_char(#[trigger] stem[i])
}

/// Calls `uuid::Uuid::new_v4` and writes the identifier with `to_string`. The
/// identifier is random; its written form is always the hyphenated one, 36
/// characters that are hyphens and lower-case hexadecimal digits.
#[verifier::external_body]
fn fresh_stem() -> (stem: String)
    ensures
        is_stem(stem@),
{
    uuid::Uuid::new_v4().to_string()
}

/// What holds of an extension taken from a file name: it stands in the name
/// behind a dot, and holds neither a dot nor a slash.
pub open spec fn is_extension_in(name: Seq<char>, extension: Seq<char>) -> bool {
    &&& !extension.contains('.')
    &&& !extension.contains('/')
    &&& exists|at: int|
        0 < at && at + extension.len() <= name.len() && name[at - 1] == '.' && #[trigger] name.subrange(
            at,
            at + extension.len(),
        ) == extension
}

/// Whether the last dot of `text` stands at `at`.
pub open spec fn last_dot_at(text: Seq<char>, at: int) -> bool {
    &&& 0 <= at < text.len()
    &&& text[at] == '.'
    &&& forall|j: int| at < j < text.len() ==> text[j] != '.'
}

/// Whether what stands in `name` from `from` on is the name of the file on
/// every platform. That is so for the piece behind the last slash of a
/// relative name, or for the whole of a name without a slash, where the name
/// holds no backslash and no colon and the piece is not empty and is neither
/// `..` nor, behind a slash, `.`.
pub open spec fn is_file_part(name: Seq<char>, from: int) -> bool {
    &&& 0 <= from < name.len()
    &&& from > 0 ==> name[from - 1] == '/' && name[0] != '/'
    &&& forall|j: int| from <= j < name.len() ==> name[j] != '/'
    &&& !name.contains('\\')
    &&& !name.contains(':')
    &&& !(name.len() - from == 2 && name[from] == '.' && name[from + 1] == '.')
    &&& !(from > 0 && name.len() - from == 1 && name[from] == '.')
}

/// Calls `std::path::Path::extension` on the name. Which part of a name
/// counts as the file's name depends on the platform, so the result is named
/// only for the names that every platform reads alike, those with an
/// `is_file_part`: there the extension is what follows the last dot of the
/// file's name, and there is none where that name has no dot or only a
/// leading one. Of every other name it is said that an extension is a piece
/// behind a dot, without dot or slash, and that a name without a dot has
/// none.
#[verifier::external_body]
fn file_extension(name: &str) -> (extension: Option<String>)
    ensures
        extension matches Some(e) ==> is_extension_in(name@, e@),
        !name@.contains('.') ==> extension is None,
        forall|from: int, at: int|
            is_file_part(name@, from) && #[trigger] last_dot_at(name@.skip(from), at) ==> (if at
                > 0 {
                extension matches Some(e) && e@ == name@.skip(from).skip(at + 1)
            } else {
                extension is None
            }),
        forall|from: int|
            #[trigger] is_file_part(name@, from) && !name@.skip(from).contains('.')
                ==> extension is None,
{
    match std::path::Path::new(name).extension() {
        Some(extension) => match extension.to_str() {
            Some(text) => Some(text.to_string()),
            None => None,
        },
        None => None,
    }
}

/// The file part of a multipart upload: its content type as sent, and the
/// file name if one was given.
#[derive(Clone, Debug, PartialEq, Eq)]
pub struct UploadField {
    pub content_type: String,
    pub filename: Option<String>,
}

/// Where an uploaded image goes: the path on disk and the path under which it
/// is served.
#[derive(Clone, Debug, PartialEq, Eq)]
pub struct UploadTarget {
    pub path: String,
    pub url: String,
}

/// The path on disk of the file `stem.extension` in the static directory.
pub open spec fn disk_path(stem: Seq<char>, extension: Seq<char>) -> Seq<char> {
    "./static/"@ + stem + "."@ + extension
}

/// The path under which the file `stem.extension` is served.
pub open spec fn public_path(stem: Seq<char>, extension: Seq<char>) -> Seq<char> {
    "/static/"@ + stem + "."@ + extension
}

impl UploadTarget {
    /// The target for the file `stem.extension`.
    pub fn new(stem: &str, extension: &str) -> (target: UploadTarget)
        ensures
            target.path@ == disk_path(stem@, extension@),
            target.url@ == public_path(stem@, extension@),
    {
        let mut path = String::from_str("./static/");
        path.append(stem);
        path.append(".");
        path.append(extension);
        let mut url = String::from_str("/static/");
        url.append(stem);
        url.append(".");
        url.append(extension);
        UploadTarget { path, url }
    }
}

/// The refusal of an upload, given the content type of its file part in
/// lower case, if it is refused before any file is named: 401 without a
/// principal, 400 without a file part, and 200 with `success: 0` for a part
/// whose type does not begin with `image`.
pub open spec fn refusal_lowered(authorized: bool, lowered: Option<Seq<char>>) -> Option<
    ResponseView,
> {
    if !authorized {
        Some(failure(401, auth_failed()))
    } else {
        match lowered {
            None => Some(failure(400, upload_failed())),
            Some(text) => if "image"@.is_prefix_of(text) {
                None
            } else {
                Some(failure(200, images_only()))
            },
        }
    }
}

/// The refusal of an upload, given the content type of its file part as it
/// was sent: that of `refusal_lowered` for the type in lower case.
pub open spec fn upload_refusal(authorized: bool, content_type: Option<Seq<char>>) -> Option<
    ResponseView,
> {
    refusal_lowered(
        authorized,
        match content_type {
            Some(sent) => Some(lowercased(sent)),
            None => None,
        },
    )
}

/// The name of the uploaded file, if the request has a file part that names
/// one.
pub open spec fn sent_name(field: Option<UploadField>) -> Option<Seq<char>> {
    match field {
        Some(part) => match part.filename {
            Some(name) => Some(name@),
            None => None,
        },
        None => None,
    }
}

/// Whether a decision is a target for a file with the given extension under
/// a generated stem.
pub open spec fn is_target(step: Result<Step<UploadTarget>, Abort>, extension: Seq<char>) -> bool {
    step matches Ok(Step::Proceed(target)) && exists|stem: Seq<char>|
        {
            &&& is_stem(stem)
            &&& target.path@ == #[trigger] disk_path(stem, extension)
            &&& target.url@ == public_path(stem, extension)
        }
}

/// What an upload that is not refused owes to the name of its file, where
/// every platform reads that name alike: a target that carries what follows
/// the last dot of the file's name by way of extension; and where the file's
/// name has no dot, or only a leading one, the abort `MissingExtension`.
pub open spec fn serves(name: Seq<char>, step: Result<Step<UploadTarget>, Abort>) -> bool {
    &&& forall|from: int, at: int|
        is_file_part(name, from) && #[trigger] last_dot_at(name.skip(from), at) ==> (if at > 0 {
            is_target(step, name.skip(from).skip(at + 1))
        } else {
            step matches Err(abort) && abort == Abort::MissingExtension
        })
    &&& forall|from: int|
        #[trigger] is_file_part(name, from) && !name.skip(from).contains('.') ==> (step matches Err(
            abort,
        ) && abort == Abort::MissingExtension)
}

/// The content type of the file part, if there is one.
pub open spec fn sent_type(field: Option<UploadField>) -> Option<Seq<char>> {
    match field {
        Some(part) => Some(part.content_type@),
        None => None,
    }
}

/// The content type in lower case as a mathematical value, if there is one.
pub open spec fn lowered_view(lowered: Option<&str>) -> Option<Seq<char>> {
    match lowered {
        Some(text) => Some(text@),
        None => None,
    }
}

/// Refuses an upload, given the content type of its file part in lower case:
/// 401 without a principal, 400 without a file part, 200 with the message for
/// images only where the type does not begin with `image`; `None` lets it
/// through.
pub fn gate_lowered(authorized_user: &Option<AuthorizedUser>, lowered: Option<&str>) -> (refusal:
    Option<Response>)
    ensures
        match refusal {
            Some(response) => refusal_lowered(authorized_user is Some, lowered_view(lowered))
                == Some(response@),
            None => refusal_lowered(authorized_user is Some, lowered_view(lowered)) is None,
        },
{
    if authorized_user.is_none() {
        return Some(unauthorized());
    }
    match lowered {
        None => Some(Response::failed(400, String::from_str("上传失败，请重试！"))),
        Some(text) => {
            if starts_with(text, "image") {
                None
            } else {
                Some(Response::failed(200, String::from_str("仅能上传图片")))
            }
        },
    }
}

/// Refuses an upload that has no principal, no file part, or a part that is
/// not an image; `None` lets it through.
pub fn upload_gate(authorized_user: &Option<AuthorizedUser>, field: &Option<UploadField>) -> (refusal:
    Option<Response>)
    ensures
        match refusal {
            Some(response) => upload_refusal(authorized_user is Some, sent_type(*field)) == Some(
                response@,
            ),
            None => upload_refusal(authorized_user is Some, sent_type(*field)) is None,
        },
{
    match field {
        None => gate_lowered(authorized_user, None),
        Some(part) => {
            let lower = to_lowercase(part.content_type.as_str());
            gate_lowered(authorized_user, Some(lower.as_str()))
        },
    }
}

/// Decides an upload. It is refused as `upload_refusal` says, and then no
/// file is written. Otherwise the file goes to the static directory under a
/// fresh stem and the extension of the name it came with, as `serves` says;
/// a part without a file name, or with a name without an extension, cannot be
/// served.
pub fn upload(authorized_user: &Option<AuthorizedUser>, field: &Option<UploadField>) -> (step: Result<
    Step<UploadTarget>,
    Abort,
>)
    ensures
        match upload_refusal(authorized_user is Some, sent_type(*field)) {
            Some(refusal) => step matches Ok(Step::Reply(response)) && response@ == refusal,
            None => match step {
                Ok(Step::Reply(_)) => false,
                Ok(Step::Proceed(target)) => {
                    &&& *field matches Some(part)
                    &&& part.filename matches Some(name)
                    &&& exists|stem: Seq<char>, extension: Seq<char>|
                        {
                            &&& is_stem(stem)
                            &&& is_extension_in(name@, extension)
                            &&& target.path@ == #[trigger] disk_path(stem, extension)
                            &&& target.url@ == public_path(stem, extension)
                        }
                },
                Err(abort) => {
                    &&& *field matches Some(part)
                    &&& match part.filename {
                        None => abort == Abort::MissingFilename,
                        Some(_) => abort == Abort::MissingExtension,
                    }
                },
            },
        },
        upload_refusal(authorized_user is Some, sent_type(*field)) is None ==> (*field matches Some(
            part,
        ) && match part.filename {
            None => step is Err,
            Some(name) => !name@.contains('.') ==> step is Err,
        }),
        upload_refusal(authorized_user is Some, sent_type(*field)) is None ==> match sent_name(
            *field,
        ) {
            Some(name) => serves(name, step),
            None => step matches Err(abort) && abort == Abort::MissingFilename,
        },
{
    match upload_gate(authorized_user, field) {
        Some(response) => Ok(Step::Reply(response)),
        None => match field {
            None => Err(Abort::MissingFilename),
            Some(part) => match &part.filename {
                None => Err(Abort::MissingFilename),
                Some(name) => match file_extension(name.as_str()) {
                    None => Err(Abort::MissingExtension),
                    Some(extension) => {
                        let stem = fresh_stem();
                        let target = UploadTarget::new(stem.as_str(), extension.as_str());
                        assert(target.path@ == disk_path(stem@, extension@));
                        Ok(Step::Proceed(target))
                    },
                },
            },
        },
    }
}

/// Answers an upload once the file is written: `{errno: 0, data: {url,
/// href}}` with status 200, both links being the host followed by the path
/// under which the file is served.
pub fn uploaded(host: &str, target: &UploadTarget) -> (response: Response)
    ensures
        response@ == (ResponseView {
            status: 200,
            body: BodyView::Upload {
                errno: 0,
                url: host@ + target.url@,
                href: host@ + target.url@,
            },
        }),
{
    let mut url = String::from_str(host);
    url.append(target.url.as_str());
    let href = url.clone();
    Response {
        status: 200,
        body: Body::Upload(UploadResponse { errno: 0, data: ImageData { url, href } }),
    }
}

} // verus!
