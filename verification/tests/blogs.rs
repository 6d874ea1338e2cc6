use blog_backend::controllers::blog::{
    blog_found, blogs_found, create, create_at, created, get_blog, get_blogs, update, updated,
    BlogSearch, BlogUpdate, Order, PostResponse, TitlePattern,
};
use blog_backend::http::{Abort, Body, Response, Step};
use blog_backend::model::blog::{Blog, BlogOneQuery, BlogQuery};
use blog_backend::model::helper::ResponseMessage;
use blog_backend::model::id::{DocumentId, Timestamp};
use blog_backend::model::user::AuthorizedUser;

fn principal() -> Option<AuthorizedUser> {
    Some(AuthorizedUser { token: "Bearer t".to_string(), sub: "507f1f77bcf86cd799439011".to_string() })
}

fn body(title: &str, content: &str) -> Blog {
    Blog { _id: None, title: title.to_string(), content: content.to_string(), created_at: None }
}

fn id(last: u8) -> DocumentId {
    DocumentId { bytes: [0x50, 0x7f, 0x1f, 0x77, 0xbc, 0xf8, 0x6c, 0xd7, 0x99, 0x43, 0x90, last] }
}

fn message(status: u16, text: &str) -> Response {
    Response {
        status,
        body: Body::Message(ResponseMessage { success: 0, message: text.to_string() }),
    }
}

fn page(listing: &[u32], search: &BlogSearch) -> Vec<u32> {
    let rest = listing.iter().skip(search.skip as usize);
    if search.limit == 0 {
        rest.copied().collect()
    } else {
        rest.take(search.limit as usize).copied().collect()
    }
}

#[test]
fn create_without_authorization_is_401() {
    let step = create(&None, body("Hello", "Hello world"));
    assert_eq!(step, Step::Reply(message(401, "对不起，认证失败！")));
}

#[test]
fn create_stamps_the_post() {
    let step = create(&principal(), body("Hello", "Hello world"));
    match step {
        Step::Proceed(post) => {
            assert_eq!(post.title, "Hello");
            assert_eq!(post.content, "Hello world");
            assert!(post._id.is_some());
            assert!(post.created_at.is_some());
            assert!(post.created_at.unwrap().millis > 1_600_000_000_000);
        },
        Step::Reply(_) => panic!("an authorized create must go on"),
    }
}

#[test]
fn two_posts_get_two_identifiers() {
    let one = create(&principal(), body("One", "First post"));
    let two = create(&principal(), body("Two", "Second post"));
    match (one, two) {
        (Step::Proceed(one), Step::Proceed(two)) => {
            assert!(one._id.is_some());
            assert_ne!(one._id, two._id);
        },
        _ => panic!("an authorized create must go on"),
    }
}

#[test]
fn create_at_uses_the_given_stamp() {
    let step = create_at(&principal(), body("T", "Content"), id(0x11), Timestamp { millis: 1234 });
    assert_eq!(
        step,
        Step::Proceed(Blog {
            _id: Some(id(0x11)),
            title: "T".to_string(),
            content: "Content".to_string(),
            created_at: Some(Timestamp { millis: 1234 }),
        })
    );
    let refused = create_at(&None, body("T", "Content"), id(0x11), Timestamp { millis: 1234 });
    assert_eq!(refused, Step::Reply(message(401, "对不起，认证失败！")));
}

#[test]
fn created_reports_the_identifier() {
    let response = created(Ok(id(0x11)));
    assert_eq!(
        response,
        Response {
            status: 200,
            body: Body::Post(PostResponse {
                success: 1,
                id: "507f1f77bcf86cd799439011".to_string()
            }),
        }
    );
}

#[test]
fn created_reports_a_store_error_with_status_200() {
    assert_eq!(created(Err("duplicate key".to_string())), message(200, "duplicate key"));
}

#[test]
fn created_post_reads_back() {
    let post = match create(&principal(), body("Round trip", "Same content")) {
        Step::Proceed(post) => post,
        Step::Reply(_) => panic!("an authorized create must go on"),
    };
    let named = match created(Ok(post._id.unwrap())).body {
        Body::Post(named) => named,
        _ => panic!("a stored post is named"),
    };
    assert_eq!(named.success, 1);
    let key = match get_blog(&BlogOneQuery { id: named.id }) {
        Step::Proceed(key) => key,
        Step::Reply(_) => panic!("the written identifier reads back"),
    };
    assert_eq!(Some(key), post._id);
    let response = blog_found(Ok(Some(post.clone())));
    assert_eq!(response.status, 200);
    match response.body {
        Body::Blog(found) => {
            assert_eq!(found.title, "Round trip");
            assert_eq!(found.content, "Same content");
            assert_eq!(found, post);
        },
        _ => panic!("a found post is sent as it is"),
    }
}

#[test]
fn update_without_authorization_is_401() {
    let mut post = body("Hello", "Hello world");
    post._id = Some(id(0x11));
    assert_eq!(update(&None, &post), Ok(Step::Reply(message(401, "对不起，认证失败！"))));
    assert_eq!(
        update(&None, &body("Hello", "Hello world")),
        Ok(Step::Reply(message(401, "对不起，认证失败！")))
    );
}

#[test]
fn update_sets_title_and_content_only() {
    let post = Blog {
        _id: Some(id(0x11)),
        title: "New title".to_string(),
        content: "New content".to_string(),
        created_at: Some(Timestamp { millis: 99 }),
    };
    assert_eq!(
        update(&principal(), &post),
        Ok(Step::Proceed(BlogUpdate {
            id: id(0x11),
            title: "New title".to_string(),
            content: "New content".to_string(),
        }))
    );
}

#[test]
fn update_without_identifier_cannot_be_served() {
    assert_eq!(update(&principal(), &body("Hello", "Hello world")), Err(Abort::MissingId));
}

#[test]
fn updated_reports_the_identifier_or_the_error() {
    let response = updated(&id(0x12), Ok(()));
    assert_eq!(
        response,
        Response {
            status: 200,
            body: Body::Post(PostResponse {
                success: 1,
                id: "507f1f77bcf86cd799439012".to_string()
            }),
        }
    );
    assert_eq!(updated(&id(0x12), Err("timeout".to_string())), message(200, "timeout"));
}

#[test]
fn get_blog_reads_the_identifier() {
    let query = BlogOneQuery { id: "507f1f77bcf86cd799439011".to_string() };
    assert_eq!(get_blog(&query), Step::Proceed(id(0x11)));
    let upper = BlogOneQuery { id: "507F1F77BCF86CD7994390AB".to_string() };
    assert_eq!(get_blog(&upper), Step::Proceed(id(0xab)));
}

#[test]
fn get_blog_refuses_a_malformed_identifier_with_400() {
    let refusal = Step::Reply(message(400, "invalid blog id"));
    assert_eq!(get_blog(&BlogOneQuery { id: "not-an-object-id".to_string() }), refusal);
    assert_eq!(get_blog(&BlogOneQuery { id: "xyz".to_string() }), refusal);
    assert_eq!(get_blog(&BlogOneQuery { id: "".to_string() }), refusal);
    assert_eq!(get_blog(&BlogOneQuery { id: "507f1f77bcf86cd79943901".to_string() }), refusal);
}

#[test]
fn missing_post_is_200_with_a_message() {
    assert_eq!(blog_found(Ok(None)), message(200, "本博文已经不存在了！"));
    assert_eq!(blog_found(Err("no connection".to_string())), message(200, "no connection"));
}

#[test]
fn pages_skip_what_comes_before() {
    let first = get_blogs(BlogQuery { q: None, limit: 10, page: 1 });
    assert_eq!(
        first,
        BlogSearch { title: None, order: Order::NewestFirst, skip: 0, limit: 10 }
    );
    let third = get_blogs(BlogQuery { q: None, limit: 10, page: 3 });
    assert_eq!(third.skip, 20);
    assert_eq!(third.limit, 10);
    let large = get_blogs(BlogQuery { q: None, limit: 65535, page: 65535 });
    assert_eq!(large.skip, 65534 * 65535);
    assert_eq!(large.limit, 65535);
    let none = get_blogs(BlogQuery { q: None, limit: 0, page: 7 });
    assert_eq!(none.skip, 0);
    assert_eq!(none.limit, 0);
}

#[test]
fn page_zero_wraps_round() {
    let zero = get_blogs(BlogQuery { q: None, limit: 10, page: 0 });
    assert_eq!(zero.skip, u64::MAX - 9);
    assert_eq!(zero.skip, ((0i64 - 1) * 10) as u64);
    let one = get_blogs(BlogQuery { q: None, limit: 1, page: 0 });
    assert_eq!(one.skip, u64::MAX);
    let empty = get_blogs(BlogQuery { q: None, limit: 0, page: 0 });
    assert_eq!(empty.skip, 0);
}

#[test]
fn title_pattern_is_matched_with_option_x() {
    let search = get_blogs(BlogQuery { q: Some("rust".to_string()), limit: 5, page: 2 });
    assert_eq!(
        search,
        BlogSearch {
            title: Some(TitlePattern { pattern: "rust".to_string(), options: "x".to_string() }),
            order: Order::NewestFirst,
            skip: 5,
            limit: 5,
        }
    );
}

#[test]
fn pages_tile_the_listing() {
    let listing: Vec<u32> = (0..25).rev().collect();
    let limit = 10;
    let one = page(&listing, &get_blogs(BlogQuery { q: None, limit, page: 1 }));
    let two = page(&listing, &get_blogs(BlogQuery { q: None, limit, page: 2 }));
    let three = page(&listing, &get_blogs(BlogQuery { q: None, limit, page: 3 }));
    let four = page(&listing, &get_blogs(BlogQuery { q: None, limit, page: 4 }));
    assert_eq!(one, listing[0..10].to_vec());
    assert_eq!(two, listing[10..20].to_vec());
    assert_eq!(three, listing[20..25].to_vec());
    assert_eq!(four, Vec::<u32>::new());
    for shown in [&one, &two, &three, &four] {
        assert!(shown.len() <= limit as usize);
        assert!(shown.windows(2).all(|pair| pair[0] >= pair[1]));
    }
}

#[test]
fn listing_is_sent_as_read() {
    let posts = vec![
        Blog {
            _id: Some(id(2)),
            title: "Second".to_string(),
            content: "Newer post".to_string(),
            created_at: Some(Timestamp { millis: 2000 }),
        },
        Blog {
            _id: Some(id(1)),
            title: "First".to_string(),
            content: "Older post".to_string(),
            created_at: Some(Timestamp { millis: 1000 }),
        },
    ];
    assert_eq!(
        blogs_found(Ok(posts.clone())),
        Response { status: 200, body: Body::Blogs(posts) }
    );
    assert_eq!(blogs_found(Ok(vec![])), Response { status: 200, body: Body::Blogs(vec![]) });
    assert_eq!(blogs_found(Err("cursor failed".to_string())), message(200, "cursor failed"));
}
