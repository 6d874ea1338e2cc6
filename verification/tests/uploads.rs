use blog_backend::controllers::blog::{
    gate_lowered, upload, upload_gate, uploaded, ImageData, UploadField, UploadResponse,
    UploadTarget,
};
use blog_backend::http::{Abort, Body, Response, Step};
use blog_backend::model::helper::ResponseMessage;
use blog_backend::model::user::AuthorizedUser;

fn principal() -> Option<AuthorizedUser> {
    Some(AuthorizedUser { token: "Bearer t".to_string(), sub: "u".to_string() })
}

fn part(content_type: &str, filename: Option<&str>) -> Option<UploadField> {
    Some(UploadField {
        content_type: content_type.to_string(),
        filename: filename.map(|name| name.to_string()),
    })
}

fn message(status: u16, text: &str) -> Response {
    Response {
        status,
        body: Body::Message(ResponseMessage { success: 0, message: text.to_string() }),
    }
}

fn target(step: Result<Step<UploadTarget>, Abort>) -> UploadTarget {
    match step {
        Ok(Step::Proceed(target)) => target,
        other => panic!("expected a target, got {:?}", other),
    }
}

#[test]
fn upload_without_authorization_is_401() {
    let step = upload(&None, &part("image/png", Some("cat.png")));
    assert_eq!(step, Ok(Step::Reply(message(401, "对不起，认证失败！"))));
    assert_eq!(upload(&None, &None), Ok(Step::Reply(message(401, "对不起，认证失败！"))));
}

#[test]
fn upload_without_a_file_part_is_400() {
    assert_eq!(upload(&principal(), &None), Ok(Step::Reply(message(400, "上传失败，请重试！"))));
}

#[test]
fn upload_of_a_non_image_is_refused() {
    for sent in ["text/plain", "application/pdf", "video/mp4", "", "imag", "x-image/png"] {
        let step = upload(&principal(), &part(sent, Some("cat.png")));
        assert_eq!(step, Ok(Step::Reply(message(200, "仅能上传图片"))));
    }
    let nameless = upload(&principal(), &part("text/plain", None));
    assert_eq!(nameless, Ok(Step::Reply(message(200, "仅能上传图片"))));
}

#[test]
fn image_goes_to_the_static_directory() {
    let saved = target(upload(&principal(), &part("image/png", Some("cat.png"))));
    assert!(saved.path.starts_with("./static/"));
    assert!(saved.path.ends_with(".png"));
    assert_eq!(saved.path.len(), "./static/".len() + 36 + ".png".len());
    assert_eq!(saved.url, saved.path[1..]);
    let stem = &saved.path["./static/".len()..saved.path.len() - ".png".len()];
    assert!(stem.chars().all(|c| c == '-' || c.is_ascii_digit() || ('a'..='f').contains(&c)));
    assert_ne!(stem, "cat");
}

#[test]
fn content_type_is_read_in_lower_case() {
    let saved = target(upload(&principal(), &part("IMAGE/JPEG", Some("photo.JPG"))));
    assert!(saved.path.ends_with(".JPG"));
    assert!(upload_gate(&principal(), &part("Image/Gif", None)).is_none());
    assert!(upload_gate(&principal(), &part("image", None)).is_none());
}

#[test]
fn extension_is_what_follows_the_last_dot() {
    let saved = target(upload(&principal(), &part("image/png", Some("archive.tar.gz"))));
    assert!(saved.path.ends_with(".gz"));
    assert!(!saved.path.ends_with(".tar.gz"));
    let nested = target(upload(&principal(), &part("image/png", Some("../../etc/passwd.png"))));
    assert!(nested.path.starts_with("./static/"));
    assert_eq!(nested.path.matches('/').count(), 2);
    assert!(nested.path.ends_with(".png"));
}

#[test]
fn nothing_of_the_name_but_the_extension_is_kept() {
    let saved = target(upload(&principal(), &part("image/png", Some("../../etc/evil.png"))));
    assert_eq!(saved.path.len(), "./static/".len() + 36 + ".png".len());
    assert!(saved.path.starts_with("./static/"));
    assert!(saved.path.ends_with(".png"));
    assert!(!saved.path.contains("evil"));
    assert!(!saved.path.contains("etc"));
    assert!(!saved.path.contains(".."));
    assert!(!saved.url.contains("evil"));
    assert_eq!(saved.url, saved.path[1..]);
    let dotted = target(upload(&principal(), &part("image/png", Some("a.b/c.d.jpeg"))));
    assert!(dotted.path.ends_with(".jpeg"));
    assert_eq!(dotted.path.len(), "./static/".len() + 36 + ".jpeg".len());
    let empty = target(upload(&principal(), &part("image/png", Some("photo."))));
    assert!(empty.path.ends_with("."));
    assert_eq!(empty.path.len(), "./static/".len() + 36 + 1);
}

#[test]
fn names_without_an_extension_in_their_last_piece() {
    assert_eq!(upload(&principal(), &part("image/png", Some("a.b/c"))), Err(Abort::MissingExtension));
    assert_eq!(upload(&principal(), &part("image/png", Some("dir/.hidden"))), Err(Abort::MissingExtension));
    assert_eq!(upload(&principal(), &part("image/png", Some("."))), Err(Abort::MissingExtension));
}

#[test]
fn two_uploads_get_two_names() {
    let one = target(upload(&principal(), &part("image/png", Some("cat.png"))));
    let two = target(upload(&principal(), &part("image/png", Some("cat.png"))));
    assert_ne!(one.path, two.path);
}

#[test]
fn image_without_a_name_or_extension_cannot_be_served() {
    assert_eq!(upload(&principal(), &part("image/png", None)), Err(Abort::MissingFilename));
    assert_eq!(upload(&principal(), &part("image/png", Some("cat"))), Err(Abort::MissingExtension));
    assert_eq!(upload(&principal(), &part("image/png", Some(""))), Err(Abort::MissingExtension));
    assert_eq!(upload(&principal(), &part("image/png", Some(".hidden"))), Err(Abort::MissingExtension));
}

#[test]
fn target_paths() {
    let made = UploadTarget::new("stem", "png");
    assert_eq!(
        made,
        UploadTarget { path: "./static/stem.png".to_string(), url: "/static/stem.png".to_string() }
    );
}

#[test]
fn uploaded_links_are_host_and_path() {
    let made = UploadTarget::new("67e55044-10b1-426f-9247-bb680e5fe0c8", "png");
    let response = uploaded("http://localhost:8080", &made);
    let link = "http://localhost:8080/static/67e55044-10b1-426f-9247-bb680e5fe0c8.png";
    assert_eq!(
        response,
        Response {
            status: 200,
            body: Body::Upload(UploadResponse {
                errno: 0,
                data: ImageData { url: link.to_string(), href: link.to_string() },
            }),
        }
    );
}

#[test]
fn gate_on_the_lower_cased_type() {
    assert_eq!(gate_lowered(&principal(), Some("image/png")), None);
    assert_eq!(gate_lowered(&principal(), Some("image")), None);
    assert_eq!(gate_lowered(&principal(), Some("text/plain")), Some(message(200, "仅能上传图片")));
    assert_eq!(gate_lowered(&principal(), Some("IMAGE/PNG")), Some(message(200, "仅能上传图片")));
    assert_eq!(gate_lowered(&principal(), Some("")), Some(message(200, "仅能上传图片")));
    assert_eq!(gate_lowered(&principal(), None), Some(message(400, "上传失败，请重试！")));
    assert_eq!(gate_lowered(&None, Some("image/png")), Some(message(401, "对不起，认证失败！")));
    assert_eq!(gate_lowered(&None, None), Some(message(401, "对不起，认证失败！")));
}
