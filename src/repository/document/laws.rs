//! What holds across operations of the document backend.
use vstd::prelude::*;
use crate::auth::password_accepted;
use crate::error::{ErrorKind, StringError};
use crate::models;
use super::like::{like_created, like_deleted, likes_without};
use super::post::{liked_documents, liked_listed, post_created, post_got, posts_listed, projects};
use super::session::{code_created, code_free_for, owner_got, with_code};
use super::store::{
    has_like, has_post, has_user, holds_code, lemma_fresh_id, lemma_stored_id_well_formed, like_at,
    liked_by, post_at, user_at,
    Database, LikeDocument, PostDocument,
};
use super::user::{settings_edited, settings_got, user_created, with_settings};

verus! {

/// Every post document in the liked list is liked by the viewer.
pub proof fn lemma_liked_documents_liked(db: Database, posts: Seq<PostDocument>, viewer: Seq<char>)
    ensures
        forall|m: int| 0 <= m < liked_documents(db, posts, viewer).len()
            ==> has_like(db, viewer, #[trigger] liked_documents(db, posts, viewer)[m].id@),
    decreases posts.len(),
{
    if posts.len() > 0 {
        lemma_liked_documents_liked(db, posts.drop_last(), viewer);
    }
}

/// A post document that the viewer likes is in the liked list.
pub proof fn lemma_liked_documents_include(db: Database, posts: Seq<PostDocument>, viewer: Seq<char>, k: int)
    requires
        0 <= k < posts.len(),
        has_like(db, viewer, posts[k].id@),
    ensures
        exists|m: int| 0 <= m < liked_documents(db, posts, viewer).len()
            && #[trigger] liked_documents(db, posts, viewer)[m] == posts[k],
    decreases posts.len(),
{
    let rest = liked_documents(db, posts.drop_last(), viewer);
    if k == posts.len() - 1 {
        assert(liked_documents(db, posts, viewer)[rest.len() as int] == posts[k]);
    } else {
        lemma_liked_documents_include(db, posts.drop_last(), viewer, k);
        let m = choose|m: int| 0 <= m < rest.len() && #[trigger] rest[m] == posts.drop_last()[k];
        assert(liked_documents(db, posts, viewer)[m] == posts[k]);
    }
}

/// No like by `user` on `post` is left after they are removed.
pub proof fn lemma_likes_without_none(likes: Seq<LikeDocument>, user: Seq<char>, post: Seq<char>)
    ensures
        forall|m: int| 0 <= m < likes_without(likes, user, post).len()
            ==> !(#[trigger] likes_without(likes, user, post)[m].user_id@ == user
                && likes_without(likes, user, post)[m].post_id@ == post),
    decreases likes.len(),
{
    if likes.len() > 0 {
        lemma_likes_without_none(likes.drop_last(), user, post);
        let rest = likes_without(likes.drop_last(), user, post);
        let all = likes_without(likes, user, post);
        assert forall|m: int| 0 <= m < all.len()
            implies !(#[trigger] all[m].user_id@ == user && all[m].post_id@ == post) by {
            if m < rest.len() {
                assert(all[m] == rest[m]);
            }
        }
    }
}

/// A post created with an author that exists reads back, for that author,
/// with the author's identifier.
pub proof fn law_post_keeps_author(
    before: Database,
    post: models::Post,
    after: Database,
    r: Result<String, StringError>,
    viewer: &str,
    got: Result<models::Post, StringError>,
)
    requires
        before.wf(),
        post.author is Some,
        has_user(before, post.author->0.id@),
        viewer@ == post.author->0.id@,
        post_created(before, post, after, r),
        post_got(after, r->Ok_0@, Some(viewer), got),
    ensures
        got is Ok,
        got->Ok_0.author is Some,
        got->Ok_0.author->0.id@ == viewer@,
{
    let last = before.posts@.len() as int;
    assert(post_at(after, last, r->Ok_0@));
    let k = choose|k: int| post_at(after, k, r->Ok_0@) && projects(after, #[trigger] after.posts@[k], Some(viewer), got->Ok_0);
    assert(after.posts@[k].id@ == after.posts@[last].id@);
    assert(k == last);
    let uid = post.author->0.id;
    let w = choose|w: int| 0 <= w < before.users@.len() && before.users@[w].id@ == uid@;
    assert(user_at(after, w, uid@));
}

/// A freshly created post is liked by no viewer.
pub proof fn law_new_post_not_liked(
    before: Database,
    post: models::Post,
    after: Database,
    r: Result<String, StringError>,
    viewer: Option<&str>,
    got: Result<models::Post, StringError>,
    all: Result<Vec<models::Post>, StringError>,
)
    requires
        before.wf(),
        post_created(before, post, after, r),
        r is Ok,
        post_got(after, r->Ok_0@, viewer, got),
        posts_listed(after, viewer, all),
    ensures
        got is Ok,
        !got->Ok_0.liked,
        forall|i: int| 0 <= i < all->Ok_0@.len() && (#[trigger] all->Ok_0@[i]).id@ == r->Ok_0@
            ==> !all->Ok_0@[i].liked,
{
    let last = before.posts@.len() as int;
    let id = r->Ok_0@;
    assert(post_at(after, last, id));
    lemma_fresh_id(before);
    assert(!liked_by(after, viewer, id)) by {
        if let Some(v) = viewer {
            if has_like(after, v@, id) {
                let q = choose|q: int| 0 <= q < after.likes@.len() && after.likes@[q].user_id@ == v@ && after.likes@[q].post_id@ == id;
                assert(has_post(before, before.likes@[q].post_id@));
            }
        }
    }
    let k = choose|k: int| post_at(after, k, id) && projects(after, #[trigger] after.posts@[k], viewer, got->Ok_0);
    assert forall|i: int| 0 <= i < all->Ok_0@.len() && (#[trigger] all->Ok_0@[i]).id@ == id
        implies !all->Ok_0@[i].liked by {
        assert(projects(after, after.posts@[i], viewer, all->Ok_0@[i]));
    }
}

/// After a like is recorded, the post reads as liked by that user and is in
/// that user's liked list.
pub proof fn law_like_shows(
    before: Database,
    user: &str,
    post: &str,
    after: Database,
    r: Result<(), StringError>,
    got: Result<models::Post, StringError>,
    all: Result<Vec<models::Post>, StringError>,
    listed: Result<Vec<models::Post>, StringError>,
)
    requires
        before.wf(),
        like_created(before, user@, post@, after, r),
        r is Ok,
        post_got(after, post@, Some(user), got),
        posts_listed(after, Some(user), all),
        liked_listed(after, user, listed),
    ensures
        got is Ok,
        got->Ok_0.liked,
        exists|i: int| 0 <= i < all->Ok_0@.len() && (#[trigger] all->Ok_0@[i]).id@ == post@
            && all->Ok_0@[i].liked,
        exists|m: int| 0 <= m < listed->Ok_0@.len() && (#[trigger] listed->Ok_0@[m]).id@ == post@
            && listed->Ok_0@[m].liked,
{
    let q = after.likes@.len() - 1;
    assert(like_at(after, q, user@, post@));
    let w = choose|w: int| 0 <= w < before.posts@.len() && before.posts@[w].id@ == post@;
    assert(post_at(after, w, post@));
    lemma_liked_documents_include(after, after.posts@, user@, w);
    let m = choose|m: int| 0 <= m < liked_documents(after, after.posts@, user@).len()
        && #[trigger] liked_documents(after, after.posts@, user@)[m] == after.posts@[w];
    assert(projects(after, liked_documents(after, after.posts@, user@)[m], Some(user), listed->Ok_0@[m]));
    assert(projects(after, after.posts@[w], Some(user), all->Ok_0@[w]));
}

/// After the likes by a user on a post are removed, the post reads as not
/// liked by that user and is not in that user's liked list.
pub proof fn law_unlike_hides(
    before: Database,
    user: &str,
    post: &str,
    after: Database,
    r: Result<(), StringError>,
    got: Result<models::Post, StringError>,
    all: Result<Vec<models::Post>, StringError>,
    listed: Result<Vec<models::Post>, StringError>,
)
    requires
        before.wf(),
        like_deleted(before, user@, post@, after, r),
        r is Ok,
        post_got(after, post@, Some(user), got),
        posts_listed(after, Some(user), all),
        liked_listed(after, user, listed),
    ensures
        got is Ok ==> !got->Ok_0.liked,
        forall|i: int| 0 <= i < all->Ok_0@.len() && (#[trigger] all->Ok_0@[i]).id@ == post@
            ==> !all->Ok_0@[i].liked,
        forall|m: int| 0 <= m < listed->Ok_0@.len() ==> (#[trigger] listed->Ok_0@[m]).id@ != post@,
{
    lemma_likes_without_none(before.likes@, user@, post@);
    assert(!has_like(after, user@, post@)) by {
        if has_like(after, user@, post@) {
            let q = choose|q: int| 0 <= q < after.likes@.len() && after.likes@[q].user_id@ == user@ && after.likes@[q].post_id@ == post@;
            assert(after.likes@[q] == likes_without(before.likes@, user@, post@)[q]);
        }
    }
    if got is Ok {
        let k = choose|k: int| post_at(after, k, post@) && projects(after, #[trigger] after.posts@[k], Some(user), got->Ok_0);
    }
    assert forall|i: int| 0 <= i < all->Ok_0@.len() && (#[trigger] all->Ok_0@[i]).id@ == post@
        implies !all->Ok_0@[i].liked by {
        assert(projects(after, after.posts@[i], Some(user), all->Ok_0@[i]));
    }
    lemma_liked_documents_liked(after, after.posts@, user@);
    assert forall|m: int| 0 <= m < listed->Ok_0@.len() implies (#[trigger] listed->Ok_0@[m]).id@ != post@ by {
        assert(projects(after, liked_documents(after, after.posts@, user@)[m], Some(user), listed->Ok_0@[m]));
        assert(has_like(after, user@, liked_documents(after, after.posts@, user@)[m].id@));
    }
}

/// A post's author, however it is read, carries no email.
pub proof fn law_authors_hide_email(
    db: Database,
    id: Seq<char>,
    viewer: Option<&str>,
    liker: &str,
    got: Result<models::Post, StringError>,
    all: Result<Vec<models::Post>, StringError>,
    liked: Result<Vec<models::Post>, StringError>,
)
    requires
        db.wf(),
        post_got(db, id, viewer, got),
        posts_listed(db, viewer, all),
        liked_listed(db, liker, liked),
    ensures
        got is Ok && got->Ok_0.author is Some ==> got->Ok_0.author->0.email is None,
        forall|i: int| 0 <= i < all->Ok_0@.len() && (#[trigger] all->Ok_0@[i]).author is Some
            ==> all->Ok_0@[i].author->0.email is None,
        forall|i: int| 0 <= i < liked->Ok_0@.len() && (#[trigger] liked->Ok_0@[i]).author is Some
            ==> liked->Ok_0@[i].author->0.email is None,
{
    if got is Ok {
        let k = choose|k: int| post_at(db, k, id) && projects(db, #[trigger] db.posts@[k], viewer, got->Ok_0);
    }
    assert forall|i: int| 0 <= i < all->Ok_0@.len() && (#[trigger] all->Ok_0@[i]).author is Some
        implies all->Ok_0@[i].author->0.email is None by {
        assert(projects(db, db.posts@[i], viewer, all->Ok_0@[i]));
    }
    assert forall|i: int| 0 <= i < liked->Ok_0@.len() && (#[trigger] liked->Ok_0@[i]).author is Some
        implies liked->Ok_0@[i].author->0.email is None by {
        assert(projects(db, liked_documents(db, db.posts@, liker@)[i], Some(liker), liked->Ok_0@[i]));
    }
}

/// Settings read back after an edit are the edited ones.
pub proof fn law_edit_then_read(
    before: Database,
    settings: models::Settings,
    after: Database,
    r: Result<(), StringError>,
    got: Result<models::User, StringError>,
)
    requires
        before.wf(),
        has_user(before, settings.user_id@),
        settings_edited(before, settings, after, r),
        settings_got(after, settings.user_id@, got),
    ensures
        got is Ok,
        got->Ok_0.settings.posts_per_page == settings.posts_per_page,
        got->Ok_0.settings.display_email == settings.display_email,
{
    lemma_stored_id_well_formed(before, settings.user_id@);
    let w = choose|w: int| 0 <= w < before.users@.len() && before.users@[w].id@ == settings.user_id@;
    assert(with_settings(before.users@[w], after.users@[w], settings));
    assert(user_at(after, w, settings.user_id@));
    let k = choose|k: int| user_at(after, k, settings.user_id@)
        && super::user::settings_view(#[trigger] after.users@[k], got->Ok_0);
    assert(after.users@[k].id@ == after.users@[w].id@);
}

/// A session code given to an existing user, and held by no other, names
/// that user.
pub proof fn law_code_names_user(
    before: Database,
    user: Seq<char>,
    code: Seq<char>,
    after: Database,
    r: Result<(), StringError>,
    got: Result<String, StringError>,
)
    requires
        before.wf(),
        has_user(before, user),
        code_free_for(before, user, code),
        code_created(before, user, code, after, r),
        owner_got(after, code, got),
    ensures
        got is Ok,
        got->Ok_0@ == user,
{
    let w = choose|w: int| 0 <= w < before.users@.len() && before.users@[w].id@ == user;
    assert(with_code(before.users@[w], after.users@[w], code));
    assert(holds_code(after.users@[w], code)) by {
        if holds_code(before.users@[w], code) {
            let m = choose|m: int| 0 <= m < before.users@[w].sessions@.len() && before.users@[w].sessions@[m]@ == code;
            assert(after.users@[w].sessions@[m]@ == code);
        } else {
            let m = after.users@[w].sessions@.len() - 1;
            assert(after.users@[w].sessions@[m]@ == code);
        }
    }
    let k = choose|k: int| 0 <= k < after.users@.len() && holds_code(#[trigger] after.users@[k], code)
        && got->Ok_0 == after.users@[k].id;
    assert(k == w);
}

/// A user with a missing or empty password is refused as a validation
/// failure, and the database is left as it was.
pub proof fn law_empty_password_refused(
    before: Database,
    user: models::User,
    after: Database,
    user_after: models::User,
    r: Result<String, StringError>,
)
    requires
        before.wf(),
        !password_accepted(user.password),
        user_created(before, user, after, user_after, r),
    ensures
        r is Err,
        r->Err_0.kind == ErrorKind::Validation,
        after == before,
{
}

} // verus!
