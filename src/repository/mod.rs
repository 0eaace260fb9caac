//! The repository capabilities and the two backends that provide them.
use vstd::prelude::*;
use crate::error::StringError;
use crate::models;

pub mod document;
pub mod relational;

verus! {

/// Users: creation, authentication and settings.
pub trait User {
    fn create(&self, user: &mut models::User) -> Result<String, StringError>;

    fn get_id(&self, email: &str, password: &str) -> Result<String, StringError>;

    fn get_user_settings(&self, id: &str) -> Result<models::User, StringError>;

    fn edit(&self, settings: &models::Settings) -> Result<(), StringError>;
}

/// Posts, read for an optional viewer.
pub trait Post {
    fn create(&self, post: &models::Post) -> Result<String, StringError>;

    fn get(&self, id: &str, user_id: Option<&str>) -> Result<models::Post, StringError>;

    fn list(&self, user_id: Option<&str>) -> Result<Vec<models::Post>, StringError>;

    fn liked_list(&self, user_id: &str) -> Result<Vec<models::Post>, StringError>;
}

/// Likes of posts by users.
pub trait Like {
    fn create(&self, user_id: &str, post_id: &str) -> Result<(), StringError>;

    fn delete(&self, user_id: &str, post_id: &str) -> Result<(), StringError>;
}

/// Login session codes.
pub trait Session {
    fn get_user_id(&self, code: &str) -> Result<String, StringError>;

    fn create(&self, user_id: &str, code: &str) -> Result<(), StringError>;
}

/// How a unit of work ends.
#[derive(Clone, Copy, Debug, PartialEq, Eq, Structural)]
pub enum Completion {
    Commit,
    Abort,
}

/// A unit of work commits when its operation succeeded and aborts on any
/// failure, so that a failed operation leaves no visible change.
pub fn completion<T>(res: &Result<T, StringError>) -> (r: Completion)
    ensures
        r == Completion::Commit <==> res is Ok,
{
    match res {
        Ok(_) => Completion::Commit,
        Err(_) => Completion::Abort,
    }
}

} // verus!
