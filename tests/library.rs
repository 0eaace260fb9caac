use blog_store::auth::{digest_password, new_password_digest};
use blog_store::error::{ErrorKind, StringError};
use blog_store::ids::{id_text, is_id_text, key_text, parse_key};
use blog_store::models;
use blog_store::repository::relational::{read_post, read_user, redact_email, AuthorRow, PostRow, UserRow};
use blog_store::repository::{completion, Completion};

#[test]
fn settings_defaults() {
    let s = models::Settings::new();
    assert_eq!(s.posts_per_page, 10);
    assert!(!s.display_email);
    assert!(s.id.is_empty());
    assert!(s.user_id.is_empty());
}

#[test]
fn user_defaults() {
    let u = models::User::new();
    assert!(u.id.is_empty());
    assert!(u.first_name.is_empty());
    assert!(u.last_name.is_empty());
    assert!(u.email.is_none());
    assert!(u.password.is_none());
    assert_eq!(u.settings.posts_per_page, 10);
}

#[test]
fn error_carries_kind_and_message() {
    let e = StringError::new(ErrorKind::Integrity, "broken");
    assert_eq!(e.kind, ErrorKind::Integrity);
    assert_eq!(e.message(), "broken");
}

#[test]
fn password_digest_is_md5_hex() {
    assert_eq!(digest_password("test"), "098f6bcd4621d373cade4e832627b4f6");
    assert_eq!(digest_password(""), "d41d8cd98f00b204e9800998ecf8427e");
}

#[test]
fn new_password_must_be_given_and_non_empty() {
    assert_eq!(new_password_digest(&None).unwrap_err().kind, ErrorKind::Validation);
    assert_eq!(new_password_digest(&Some(String::new())).unwrap_err().kind, ErrorKind::Validation);
    assert_eq!(new_password_digest(&Some("test".to_owned())).unwrap(), "098f6bcd4621d373cade4e832627b4f6");
}

#[test]
fn identifier_texts() {
    assert_eq!(id_text(0), "0");
    assert_eq!(id_text(42), "42");
    assert_eq!(id_text(u64::MAX), "18446744073709551615");
    assert_eq!(key_text(-7), "-7");
    assert_eq!(key_text(i32::MAX), "2147483647");
}

#[test]
fn keys_parse_or_are_refused() {
    assert_eq!(parse_key("12").unwrap(), 12);
    assert_eq!(parse_key("+5").unwrap(), 5);
    assert_eq!(parse_key("-3").unwrap(), -3);
    assert_eq!(parse_key("007").unwrap(), 7);
    assert_eq!(parse_key("2147483647").unwrap(), i32::MAX);
    assert_eq!(parse_key("2147483648").unwrap_err().kind, ErrorKind::Validation);
    assert_eq!(parse_key("").unwrap_err().kind, ErrorKind::Validation);
    assert_eq!(parse_key("-").unwrap_err().kind, ErrorKind::Validation);
    assert_eq!(parse_key(" 1").unwrap_err().kind, ErrorKind::Validation);
    assert_eq!(parse_key("aaaaaaaaaaaaaaaaaaaaaaaa").unwrap_err().kind, ErrorKind::Validation);
}

#[test]
fn email_shown_only_when_displayed() {
    let e = Some("a@b.c".to_owned());
    assert_eq!(redact_email(&e, Some(true)), e);
    assert_eq!(redact_email(&e, Some(false)), None);
    assert_eq!(redact_email(&e, None), None);
}

fn row(display_email: Option<bool>, like_id: Option<i32>) -> PostRow {
    PostRow {
        id: 5,
        title: "t".to_owned(),
        text: Some("x".to_owned()),
        description: None,
        author: Some(AuthorRow {
            id: 3,
            first_name: "F".to_owned(),
            last_name: "L".to_owned(),
            email: Some("f@l.org".to_owned()),
            display_email,
        }),
        like_id,
    }
}

#[test]
fn relational_post_row_projection() {
    let p = read_post(&row(Some(true), Some(9)));
    assert_eq!(p.id, "5");
    assert_eq!(p.title, "t");
    assert_eq!(p.text, Some("x".to_owned()));
    assert!(p.description.is_none());
    assert!(p.liked);
    let a = p.author.unwrap();
    assert_eq!(a.id, "3");
    assert_eq!(a.first_name, "F");
    assert_eq!(a.email, Some("f@l.org".to_owned()));
    assert!(a.password.is_none());

    let hidden = read_post(&row(Some(false), None));
    assert!(!hidden.liked);
    assert!(hidden.author.unwrap().email.is_none());
    assert!(read_post(&row(None, None)).author.unwrap().email.is_none());
}

#[test]
fn relational_post_without_author() {
    let mut r = row(None, None);
    r.author = None;
    assert!(read_post(&r).author.is_none());
}

#[test]
fn relational_user_row_projection() {
    let r = UserRow {
        user_id: 8,
        first_name: "F".to_owned(),
        last_name: "L".to_owned(),
        email: Some("f@l.org".to_owned()),
        settings_id: 11,
        posts_per_page: 30,
        display_email: false,
    };
    let u = read_user(&r);
    assert_eq!(u.id, "8");
    assert!(u.email.is_none());
    assert!(u.password.is_none());
    assert_eq!(u.settings.id, "11");
    assert_eq!(u.settings.user_id, "8");
    assert_eq!(u.settings.posts_per_page, 30);
    let shown = read_user(&UserRow { display_email: true, ..r });
    assert_eq!(shown.email, Some("f@l.org".to_owned()));
}

#[test]
fn unit_of_work_commits_only_on_success() {
    let ok: Result<u8, StringError> = Ok(1);
    let failed: Result<u8, StringError> = Err(StringError::new(ErrorKind::Connection, "down"));
    assert_eq!(completion(&ok), Completion::Commit);
    assert_eq!(completion(&failed), Completion::Abort);
}

#[test]
fn record_identifier_texts() {
    assert!(is_id_text("0"));
    assert!(is_id_text("42"));
    assert!(is_id_text("18446744073709551615"));
    assert!(!is_id_text("18446744073709551616"));
    assert!(!is_id_text(""));
    assert!(!is_id_text("007"));
    assert!(!is_id_text("+7"));
    assert!(!is_id_text("-7"));
    assert!(!is_id_text("not-an-id"));
}
