//! The domain entities shared by every backend.
use vstd::prelude::*;

verus! {

/// How many posts a page shows when a user has not chosen.
pub const DEFAULT_POSTS_PER_PAGE: i32 = 10;

/// A user's preferences; one record per user.
#[derive(Debug)]
pub struct Settings {
    pub id: String,
    pub user_id: String,
    pub posts_per_page: i32,
    pub display_email: bool,
}

/// A user, with the settings it owns. `password` is present only on create
/// and authentication, never on reads.
#[derive(Debug)]
pub struct User {
    pub id: String,
    pub first_name: String,
    pub last_name: String,
    pub email: Option<String>,
    pub password: Option<String>,
    pub settings: Settings,
}

/// A post. `liked` is relative to the viewer it was read for; `author` is a
/// redacted view of the user who wrote it.
#[derive(Debug)]
pub struct Post {
    pub id: String,
    pub title: String,
    pub text: Option<String>,
    pub description: Option<String>,
    pub liked: bool,
    pub author: Option<User>,
}

/// Settings as a new user gets them.
pub open spec fn is_default_settings(s: Settings) -> bool {
    &&& s.id@.len() == 0
    &&& s.user_id@.len() == 0
    &&& s.posts_per_page == DEFAULT_POSTS_PER_PAGE
    &&& !s.display_email
}

/// A copy of an optional text.
pub fn copy_text(o: &Option<String>) -> (r: Option<String>)
    ensures
        r == *o,
{
    match o {
        Some(t) => Some(t.clone()),
        None => None,
    }
}

impl Settings {
    pub fn new() -> (r: Self)
        ensures
            is_default_settings(r),
    {
        Settings {
            id: String::new(),
            user_id: String::new(),
            posts_per_page: DEFAULT_POSTS_PER_PAGE,
            display_email: false,
        }
    }
}

impl User {
    pub fn new() -> (r: Self)
        ensures
            r.id@.len() == 0,
            r.first_name@.len() == 0,
            r.last_name@.len() == 0,
            r.email is None,
            r.password is None,
            is_default_settings(r.settings),
    {
        User {
            id: String::new(),
            first_name: String::new(),
            last_name: String::new(),
            email: None,
            password: None,
            settings: Settings::new(),
        }
    }
}

} // verus!
