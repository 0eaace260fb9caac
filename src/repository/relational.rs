//! The relational backend's read model: rows that its join queries return,
//! projected into entities with the viewer's like and the author's email
//! redaction applied.
use vstd::prelude::*;
use crate::ids::{key_text, signed_decimal};
use crate::models;
use crate::models::{copy_text, is_default_settings};

verus! {

/// The author columns of a post row, present when the post has an author.
/// `display_email` is the author's setting, absent without a settings row.
#[derive(Debug)]
pub struct AuthorRow {
    pub id: i32,
    pub first_name: String,
    pub last_name: String,
    pub email: Option<String>,
    pub display_email: Option<bool>,
}

/// A row of a post query: the post, its author, and the viewer's like, if
/// the viewer has one on the post.
#[derive(Debug)]
pub struct PostRow {
    pub id: i32,
    pub title: String,
    pub text: Option<String>,
    pub description: Option<String>,
    pub author: Option<AuthorRow>,
    pub like_id: Option<i32>,
}

/// A row of the user-with-settings query.
#[derive(Debug)]
pub struct UserRow {
    pub user_id: i32,
    pub first_name: String,
    pub last_name: String,
    pub email: Option<String>,
    pub settings_id: i32,
    pub posts_per_page: i32,
    pub display_email: bool,
}

/// The email shown for a user: only where the user chose to display it.
pub open spec fn shown_email(email: Option<String>, display_email: Option<bool>) -> Option<String> {
    if display_email == Some(true) { email } else { None }
}

/// `p` is the post row `row` as an entity.
pub open spec fn post_of_row(row: PostRow, p: models::Post) -> bool {
    &&& p.id@ == signed_decimal(row.id as int)
    &&& p.title == row.title
    &&& p.text == row.text
    &&& p.description == row.description
    &&& p.liked == (row.like_id is Some)
    &&& match row.author {
        Some(a) => p.author is Some && {
            let u = p.author->0;
            &&& u.id@ == signed_decimal(a.id as int)
            &&& u.first_name == a.first_name
            &&& u.last_name == a.last_name
            &&& u.email == shown_email(a.email, a.display_email)
            &&& u.password is None
            &&& is_default_settings(u.settings)
        },
        None => p.author is None,
    }
}

/// `u` is the user row `row` as an entity with its settings.
pub open spec fn user_of_row(row: UserRow, u: models::User) -> bool {
    &&& u.id@ == signed_decimal(row.user_id as int)
    &&& u.first_name == row.first_name
    &&& u.last_name == row.last_name
    &&& u.email == shown_email(row.email, Some(row.display_email))
    &&& u.password is None
    &&& u.settings.id@ == signed_decimal(row.settings_id as int)
    &&& u.settings.user_id@ == signed_decimal(row.user_id as int)
    &&& u.settings.posts_per_page == row.posts_per_page
    &&& u.settings.display_email == row.display_email
}

/// The email to show, given the stored email and the display setting.
pub fn redact_email(email: &Option<String>, display_email: Option<bool>) -> (r: Option<String>)
    ensures
        r == shown_email(*email, display_email),
{
    match display_email {
        Some(true) => copy_text(email),
        _ => None,
    }
}

/// A post row as an entity: liked when the viewer's like joined, and with
/// the author's email only where the author displays it.
pub fn read_post(row: &PostRow) -> (r: models::Post)
    ensures
        post_of_row(*row, r),
{
    let author = match &row.author {
        Some(a) => Some(models::User {
            id: key_text(a.id),
            first_name: a.first_name.clone(),
            last_name: a.last_name.clone(),
            email: redact_email(&a.email, a.display_email),
            password: None,
            settings: models::Settings::new(),
        }),
        None => None,
    };
    models::Post {
        id: key_text(row.id),
        title: row.title.clone(),
        text: copy_text(&row.text),
        description: copy_text(&row.description),
        liked: row.like_id.is_some(),
        author,
    }
}

/// A user row as an entity with its settings; the email shows only where
/// the user displays it.
pub fn read_user(row: &UserRow) -> (r: models::User)
    ensures
        user_of_row(*row, r),
{
    let id = key_text(row.user_id);
    models::User {
        id: id.clone(),
        first_name: row.first_name.clone(),
        last_name: row.last_name.clone(),
        email: redact_email(&row.email, Some(row.display_email)),
        password: None,
        settings: models::Settings {
            id: key_text(row.settings_id),
            user_id: id,
            posts_per_page: row.posts_per_page,
            display_email: row.display_email,
        },
    }
}

/// A relational author view shows the stored email exactly when the author
/// displays it, and no email otherwise.
pub proof fn law_relational_email_redaction(row: PostRow, p: models::Post)
    requires
        post_of_row(row, p),
        row.author is Some,
    ensures
        p.author is Some,
        row.author->0.display_email == Some(true) ==> p.author->0.email == row.author->0.email,
        row.author->0.display_email != Some(true) ==> p.author->0.email is None,
{
}

} // verus!
