use blog_backend::model::blog::Blog;
use blog_backend::model::user::{LoginUser, User};
use blog_backend::validation::Field;

fn post(title: &str, content: &str) -> Blog {
    Blog { _id: None, title: title.to_string(), content: content.to_string(), created_at: None }
}

fn user(username: &str, email: &str, password: &str) -> User {
    User {
        _id: None,
        username: username.to_string(),
        email: email.to_string(),
        password: password.to_string(),
        created_at: None,
    }
}

#[test]
fn post_with_title_and_five_characters_is_valid() {
    assert_eq!(post("t", "12345").validate(), Ok(()));
    assert_eq!(post("A title", "Some longer content").validate(), Ok(()));
}

#[test]
fn post_without_title_is_invalid() {
    assert_eq!(post("", "12345").validate(), Err(vec![Field::Title]));
}

#[test]
fn post_with_short_content_is_invalid() {
    assert_eq!(post("t", "1234").validate(), Err(vec![Field::Content]));
    assert_eq!(post("t", "").validate(), Err(vec![Field::Content]));
}

#[test]
fn every_broken_rule_is_listed() {
    assert_eq!(post("", "").validate(), Err(vec![Field::Title, Field::Content]));
    assert_eq!(
        user("", "nobody", "12345").validate(),
        Err(vec![Field::Username, Field::Email, Field::Password])
    );
}

#[test]
fn lengths_count_characters_not_bytes() {
    assert_eq!(post("题", "五个字符呀").validate(), Ok(()));
    assert_eq!(post("题", "四个字符").validate(), Err(vec![Field::Content]));
    assert_eq!(user("名", "a@b.co", "六个字符密码").validate(), Ok(()));
}

#[test]
fn user_rules() {
    assert_eq!(user("admin", "admin@x.com", "secret").validate(), Ok(()));
    assert_eq!(user("", "admin@x.com", "secret").validate(), Err(vec![Field::Username]));
    assert_eq!(user("admin", "admin-at-x.com", "secret").validate(), Err(vec![Field::Email]));
    assert_eq!(user("admin", "", "secret").validate(), Err(vec![Field::Email]));
    assert_eq!(user("admin", "admin@x.com", "12345").validate(), Err(vec![Field::Password]));
}

#[test]
fn login_rules() {
    let good = LoginUser { email: "admin@x.com".to_string(), password: "wrongpass".to_string() };
    assert_eq!(good.validate(), Ok(()));
    let bad_email = LoginUser { email: "@x.com".to_string(), password: "wrongpass".to_string() };
    assert_eq!(bad_email.validate(), Err(vec![Field::Email]));
    let short = LoginUser { email: "admin@x.com".to_string(), password: "short".to_string() };
    assert_eq!(short.validate(), Err(vec![Field::Password]));
    let neither = LoginUser { email: "x".to_string(), password: "".to_string() };
    assert_eq!(neither.validate(), Err(vec![Field::Email, Field::Password]));
}
