//! Posts in the document backend, read for a viewer.
use vstd::prelude::*;
use crate::error::{ErrorKind, StringError};
use crate::models;
use crate::models::{copy_text, is_default_settings};
use super::store::{
    has_like, has_post, has_user, lemma_stored_id_well_formed, lemma_wf_post_appended, liked_by,
    post_at, user_at, Database, PostDocument, UserDocument,
};
use crate::ids::{decimal, is_id, is_id_text, lemma_decimal_round_trip};

verus! {

/// The author as a joined post carries it: password, email, settings and
/// session codes are stripped.
#[derive(Debug)]
pub struct AuthorDocument {
    pub id: String,
    pub first_name: String,
    pub last_name: String,
}

/// A post document joined with its author and with whether the viewer
/// likes it.
#[derive(Debug)]
pub struct JoinedPost {
    pub id: String,
    pub title: String,
    pub text: Option<String>,
    pub description: Option<String>,
    pub author: Option<AuthorDocument>,
    pub liked: bool,
}

/// The posts of the document backend.
pub struct Post {}

pub open spec fn author_document_of(u: UserDocument, a: AuthorDocument) -> bool {
    &&& a.id == u.id
    &&& a.first_name == u.first_name
    &&& a.last_name == u.last_name
}

/// `j` is the post document `doc` joined with its author and with whether
/// `viewer` likes it.
pub open spec fn joined(db: Database, doc: PostDocument, viewer: Option<&str>, j: JoinedPost) -> bool {
    &&& j.id == doc.id
    &&& j.title == doc.title
    &&& j.text == doc.text
    &&& j.description == doc.description
    &&& j.liked == liked_by(db, viewer, doc.id@)
    &&& match doc.user_id {
        Some(uid) => if has_user(db, uid@) {
            j.author is Some && exists|k: int|
                user_at(db, k, uid@) && author_document_of(#[trigger] db.users@[k], j.author->0)
        } else {
            j.author is None
        },
        None => j.author is None,
    }
}

/// The redacted view of a user that a post carries as its author: no email,
/// no password, default settings.
pub open spec fn author_view(u: UserDocument, a: models::User) -> bool {
    &&& a.id == u.id
    &&& a.first_name == u.first_name
    &&& a.last_name == u.last_name
    &&& a.email is None
    &&& a.password is None
    &&& is_default_settings(a.settings)
}

/// `p` is the post document `doc` as `viewer` reads it.
pub open spec fn projects(db: Database, doc: PostDocument, viewer: Option<&str>, p: models::Post) -> bool {
    &&& p.id == doc.id
    &&& p.title == doc.title
    &&& p.text == doc.text
    &&& p.description == doc.description
    &&& p.liked == liked_by(db, viewer, doc.id@)
    &&& match doc.user_id {
        Some(uid) => if has_user(db, uid@) {
            p.author is Some && exists|k: int|
                user_at(db, k, uid@) && author_view(#[trigger] db.users@[k], p.author->0)
        } else {
            p.author is None
        },
        None => p.author is None,
    }
}

/// `p` is the entity that the joined post `j` reads as.
pub open spec fn read_of(j: JoinedPost, p: models::Post) -> bool {
    &&& p.id == j.id
    &&& p.title == j.title
    &&& p.text == j.text
    &&& p.description == j.description
    &&& p.liked == j.liked
    &&& match j.author {
        Some(a) => p.author is Some && {
            let u = p.author->0;
            &&& u.id == a.id
            &&& u.first_name == a.first_name
            &&& u.last_name == a.last_name
            &&& u.email is None
            &&& u.password is None
            &&& is_default_settings(u.settings)
        },
        None => p.author is None,
    }
}

/// The post documents that `viewer` likes, in the order of the collection.
pub open spec fn liked_documents(db: Database, posts: Seq<PostDocument>, viewer: Seq<char>) -> Seq<PostDocument>
    decreases posts.len(),
{
    if posts.len() == 0 {
        posts
    } else {
        let rest = liked_documents(db, posts.drop_last(), viewer);
        if has_like(db, viewer, posts.last().id@) {
            rest.push(posts.last())
        } else {
            rest
        }
    }
}

/// The author identifier that a new post is stored with.
pub open spec fn author_id_of(post: models::Post) -> Option<String> {
    match post.author {
        Some(a) => Some(a.id),
        None => None,
    }
}

/// Joining a post and reading the result projects the post.
pub proof fn lemma_read_joined(db: Database, doc: PostDocument, viewer: Option<&str>, j: JoinedPost, p: models::Post)
    requires
        joined(db, doc, viewer, j),
        read_of(j, p),
    ensures
        projects(db, doc, viewer, p),
{
    if let Some(uid) = doc.user_id {
        if has_user(db, uid@) {
            let k = choose|k: int| user_at(db, k, uid@) && author_document_of(#[trigger] db.users@[k], j.author->0);
            assert(author_view(db.users@[k], p.author->0));
        }
    }
}

/// Whether `post` may be stored in `db`: it has no author, or its author
/// exists.
pub open spec fn author_known(db: Database, post: models::Post) -> bool {
    match post.author {
        Some(a) => has_user(db, a.id@),
        None => true,
    }
}

/// What creating `post` in `before` leaves: the database `after` and the
/// result `r`. The new post is appended under a fresh identifier; a post
/// whose author does not exist is refused and nothing changes.
pub open spec fn post_created(before: Database, post: models::Post, after: Database, r: Result<String, StringError>) -> bool {
    &&& after.wf()
    &&& r is Ok <==> author_known(before, post)
    &&& r is Err ==> r->Err_0.kind == ErrorKind::Integrity && after == before
    &&& r is Ok ==> {
        &&& r->Ok_0@ == decimal(before.next_id as nat)
        &&& is_id(r->Ok_0@)
        &&& has_post(after, r->Ok_0@)
        &&& after.posts@ == before.posts@.push(PostDocument {
            id: r->Ok_0,
            user_id: author_id_of(post),
            title: post.title,
            text: post.text,
            description: post.description,
        })
        &&& after.users == before.users
        &&& after.likes == before.likes
        &&& after.next_id == before.next_id + 1
    }
}

/// What reading the post `id` for `viewer` from `db` returns. An identifier
/// that is not well formed is a validation failure.
pub open spec fn post_got(db: Database, id: Seq<char>, viewer: Option<&str>, r: Result<models::Post, StringError>) -> bool {
    &&& r is Ok <==> has_post(db, id)
    &&& r is Ok ==> exists|k: int| post_at(db, k, id) && projects(db, #[trigger] db.posts@[k], viewer, r->Ok_0)
    &&& r is Err && !is_id(id) ==> r->Err_0.kind == ErrorKind::Validation
    &&& r is Err && is_id(id) ==> r->Err_0.kind == ErrorKind::NotFound
}

/// What listing the posts for `viewer` from `db` returns.
pub open spec fn posts_listed(db: Database, viewer: Option<&str>, r: Result<Vec<models::Post>, StringError>) -> bool {
    &&& r is Ok
    &&& r->Ok_0@.len() == db.posts@.len()
    &&& forall|i: int| 0 <= i < db.posts@.len() ==> projects(db, db.posts@[i], viewer, #[trigger] r->Ok_0@[i])
}

/// What listing the posts that `viewer` likes from `db` returns.
pub open spec fn liked_listed(db: Database, viewer: &str, r: Result<Vec<models::Post>, StringError>) -> bool {
    &&& r is Ok
    &&& r->Ok_0@.len() == liked_documents(db, db.posts@, viewer@).len()
    &&& forall|i: int| 0 <= i < r->Ok_0@.len() ==> projects(db,
        liked_documents(db, db.posts@, viewer@)[i], Some(viewer), #[trigger] r->Ok_0@[i])
}

impl Post {
    pub fn new() -> Self {
        Post {}
    }

    /// Joins one post document with its author and with the viewer's likes.
    pub fn join(&self, doc: &PostDocument, user_id: &Option<&str>, session: &Database) -> (r: JoinedPost)
        requires
            session.wf(),
        ensures
            joined(*session, *doc, *user_id, r),
    {
        let author = match &doc.user_id {
            Some(uid) => match session.find_user(uid.as_str()) {
                Some(k) => {
                    let u = &session.users[k];
                    Some(AuthorDocument {
                        id: u.id.clone(),
                        first_name: u.first_name.clone(),
                        last_name: u.last_name.clone(),
                    })
                },
                None => None,
            },
            None => None,
        };
        let liked = match user_id {
            Some(v) => session.like_exists(v, doc.id.as_str()),
            None => false,
        };
        JoinedPost {
            id: doc.id.clone(),
            title: doc.title.clone(),
            text: copy_text(&doc.text),
            description: copy_text(&doc.description),
            author,
            liked,
        }
    }

    /// Every post document of the collection, joined for the viewer, in the
    /// order of the collection.
    pub fn pipeline(&self, user_id: &Option<&str>, session: &Database) -> (r: Vec<JoinedPost>)
        requires
            session.wf(),
        ensures
            r@.len() == session.posts@.len(),
            forall|i: int| 0 <= i < r@.len() ==> joined(*session, session.posts@[i], *user_id, #[trigger] r@[i]),
    {
        let mut r: Vec<JoinedPost> = Vec::new();
        let mut i: usize = 0;
        while i < session.posts.len()
            invariant
                session.wf(),
                i <= session.posts@.len(),
                r@.len() == i,
                forall|m: int| 0 <= m < i ==> joined(*session, session.posts@[m], *user_id, #[trigger] r@[m]),
            decreases session.posts@.len() - i,
        {
            let j = self.join(&session.posts[i], user_id, session);
            r.push(j);
            i = i + 1;
        }
        r
    }

    /// The entity that a joined post reads as.
    pub fn read(&self, doc: &JoinedPost) -> (r: models::Post)
        ensures
            read_of(*doc, r),
    {
        let author = match &doc.author {
            Some(a) => Some(models::User {
                id: a.id.clone(),
                first_name: a.first_name.clone(),
                last_name: a.last_name.clone(),
                email: None,
                password: None,
                settings: models::Settings::new(),
            }),
            None => None,
        };
        models::Post {
            id: doc.id.clone(),
            title: doc.title.clone(),
            text: copy_text(&doc.text),
            description: copy_text(&doc.description),
            liked: doc.liked,
            author,
        }
    }

    /// Stores a new post; its author is referred to by the author's
    /// identifier. Returns the new post's identifier.
    pub fn create_ws(&self, post: &models::Post, session: &mut Database) -> (r: Result<String, StringError>)
        requires
            old(session).wf(),
            old(session).next_id < u64::MAX,
        ensures
            post_created(*old(session), *post, *final(session), r),
    {
        let user_id = match &post.author {
            Some(a) => {
                if session.find_user(a.id.as_str()).is_none() {
                    return Err(StringError::new(ErrorKind::Integrity, "The author of a post must exist"));
                }
                Some(a.id.clone())
            },
            None => None,
        };
        let ghost before = *session;
        let id = session.issue_id();
        let doc = PostDocument {
            id: id.clone(),
            user_id,
            title: post.title.clone(),
            text: copy_text(&post.text),
            description: copy_text(&post.description),
        };
        session.posts.push(doc);
        proof {
            lemma_wf_post_appended(before, *session, doc);
            assert(post_at(*session, before.posts@.len() as int, id@));
            lemma_decimal_round_trip(before.next_id as nat);
        }
        Ok(id)
    }

    /// The post with identifier `id`, as the viewer `user_id` reads it.
    pub fn get_ws(&self, id: &str, user_id: Option<&str>, session: &Database) -> (r: Result<models::Post, StringError>)
        requires
            session.wf(),
        ensures
            post_got(*session, id@, user_id, r),
    {
        if !is_id_text(id) {
            proof {
                if has_post(*session, id@) {
                    lemma_stored_id_well_formed(*session, id@);
                }
            }
            return Err(StringError::new(ErrorKind::Validation, "Malformed post id"));
        }
        match session.find_post(id) {
            Some(k) => {
                let j = self.join(&session.posts[k], &user_id, session);
                let p = self.read(&j);
                proof {
                    lemma_read_joined(*session, session.posts@[k as int], user_id, j, p);
                }
                Ok(p)
            },
            None => Err(StringError::new(ErrorKind::NotFound, "Post with this id not found")),
        }
    }

    /// Every post, as the viewer `user_id` reads it, in the order of the
    /// collection.
    pub fn list_ws(&self, user_id: Option<&str>, session: &Database) -> (r: Result<Vec<models::Post>, StringError>)
        requires
            session.wf(),
        ensures
            posts_listed(*session, user_id, r),
    {
        let docs = self.pipeline(&user_id, session);
        let mut data: Vec<models::Post> = Vec::new();
        let mut i: usize = 0;
        while i < docs.len()
            invariant
                docs@.len() == session.posts@.len(),
                forall|m: int| 0 <= m < docs@.len() ==> joined(*session, session.posts@[m], user_id, #[trigger] docs@[m]),
                i <= docs@.len(),
                data@.len() == i,
                forall|m: int| 0 <= m < i ==> projects(*session, session.posts@[m], user_id, #[trigger] data@[m]),
            decreases docs@.len() - i,
        {
            let p = self.read(&docs[i]);
            proof {
                lemma_read_joined(*session, session.posts@[i as int], user_id, docs@[i as int], p);
            }
            data.push(p);
            i = i + 1;
        }
        Ok(data)
    }

    /// The posts that `user_id` likes, as that user reads them, in the order
    /// of the collection.
    pub fn liked_list_ws(&self, user_id: &str, session: &Database) -> (r: Result<Vec<models::Post>, StringError>)
        requires
            session.wf(),
        ensures
            liked_listed(*session, user_id, r),
    {
        let viewer = Some(user_id);
        let docs = self.pipeline(&viewer, session);
        let mut data: Vec<models::Post> = Vec::new();
        let mut i: usize = 0;
        while i < docs.len()
            invariant
                docs@.len() == session.posts@.len(),
                forall|m: int| 0 <= m < docs@.len() ==> joined(*session, session.posts@[m], viewer, #[trigger] docs@[m]),
                viewer == Some(user_id),
                i <= docs@.len(),
                data@.len() == liked_documents(*session, session.posts@.subrange(0, i as int), user_id@).len(),
                forall|m: int| 0 <= m < data@.len() ==> projects(*session,
                    liked_documents(*session, session.posts@.subrange(0, i as int), user_id@)[m], viewer, #[trigger] data@[m]),
            decreases docs@.len() - i,
        {
            let ghost prefix = session.posts@.subrange(0, i as int);
            let ghost next = session.posts@.subrange(0, i as int + 1);
            proof {
                assert(next.drop_last() =~= prefix);
                assert(next.last() == session.posts@[i as int]);
                assert(joined(*session, session.posts@[i as int], viewer, docs@[i as int]));
                assert(docs@[i as int].liked == has_like(*session, user_id@, next.last().id@));
            }
            let ghost before = data@;
            proof {
                assert(liked_documents(*session, next, user_id@) == (if has_like(*session, user_id@, next.last().id@) {
                    liked_documents(*session, prefix, user_id@).push(next.last())
                } else {
                    liked_documents(*session, prefix, user_id@)
                }));
            }
            if docs[i].liked {
                let p = self.read(&docs[i]);
                proof {
                    lemma_read_joined(*session, session.posts@[i as int], viewer, docs@[i as int], p);
                }
                data.push(p);
                proof {
                    assert forall|m: int| 0 <= m < data@.len() implies projects(*session,
                        liked_documents(*session, next, user_id@)[m], viewer, #[trigger] data@[m]) by {
                        if m < before.len() {
                            assert(data@[m] == before[m]);
                        }
                    }
                }
            }
            i = i + 1;
        }
        proof {
            assert(session.posts@.subrange(0, docs@.len() as int) =~= session.posts@);
        }
        Ok(data)
    }
}

} // verus!
