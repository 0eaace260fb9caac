//! Likes in the document backend.
use vstd::prelude::*;
use crate::error::{ErrorKind, StringError};
use crate::ids::{is_id, is_id_text};
use super::store::{
    has_post, has_user, lemma_stored_id_well_formed, lemma_wf_likes_changed, Database, LikeDocument,
};

verus! {

/// The likes of the document backend.
pub struct Like {}

/// The likes of `likes` that are not by `user` on `post`, in their order.
pub open spec fn likes_without(likes: Seq<LikeDocument>, user: Seq<char>, post: Seq<char>) -> Seq<LikeDocument>
    decreases likes.len(),
{
    if likes.len() == 0 {
        likes
    } else {
        let rest = likes_without(likes.drop_last(), user, post);
        if likes.last().user_id@ == user && likes.last().post_id@ == post {
            rest
        } else {
            rest.push(likes.last())
        }
    }
}

/// What recording that `user` likes `post` in `before` leaves. An
/// identifier that is not well formed is a validation failure; a like of a
/// user or post that does not exist breaks integrity. Either way nothing
/// changes.
pub open spec fn like_created(before: Database, user: Seq<char>, post: Seq<char>, after: Database, r: Result<(), StringError>) -> bool {
    &&& after.wf()
    &&& r is Ok <==> has_user(before, user) && has_post(before, post)
    &&& r is Err ==> after == before
    &&& r is Err && !(is_id(user) && is_id(post)) ==> r->Err_0.kind == ErrorKind::Validation
    &&& r is Err && is_id(user) && is_id(post) ==> r->Err_0.kind == ErrorKind::Integrity
    &&& r is Ok ==> {
        &&& after.likes@.len() == before.likes@.len() + 1
        &&& after.likes@.drop_last() == before.likes@
        &&& after.likes@.last().user_id@ == user
        &&& after.likes@.last().post_id@ == post
        &&& after.users == before.users
        &&& after.posts == before.posts
        &&& after.next_id == before.next_id
    }
}

/// What removing the likes by `user` on `post` from `before` leaves. An
/// identifier that is not well formed is a validation failure, and nothing
/// changes.
pub open spec fn like_deleted(before: Database, user: Seq<char>, post: Seq<char>, after: Database, r: Result<(), StringError>) -> bool {
    &&& after.wf()
    &&& r is Ok <==> is_id(user) && is_id(post)
    &&& r is Err ==> r->Err_0.kind == ErrorKind::Validation && after == before
    &&& r is Ok ==> after.likes@ == likes_without(before.likes@, user, post)
    &&& after.users == before.users
    &&& after.posts == before.posts
    &&& after.next_id == before.next_id
}

impl Like {
    pub fn new() -> Self {
        Like {}
    }

    /// Records that `user_id` likes `post_id`. Both must exist; a like that
    /// is already there is recorded again.
    pub fn create_ws(&self, user_id: &str, post_id: &str, session: &mut Database) -> (r: Result<(), StringError>)
        requires
            old(session).wf(),
        ensures
            like_created(*old(session), user_id@, post_id@, *final(session), r),
    {
        if !is_id_text(user_id) || !is_id_text(post_id) {
            proof {
                if has_user(*session, user_id@) {
                    lemma_stored_id_well_formed(*session, user_id@);
                }
                if has_post(*session, post_id@) {
                    lemma_stored_id_well_formed(*session, post_id@);
                }
            }
            return Err(StringError::new(ErrorKind::Validation, "Malformed user or post id"));
        }
        if session.find_user(user_id).is_none() {
            return Err(StringError::new(ErrorKind::Integrity, "A like must refer to an existing user"));
        }
        if session.find_post(post_id).is_none() {
            return Err(StringError::new(ErrorKind::Integrity, "A like must refer to an existing post"));
        }
        session.likes.push(LikeDocument { user_id: user_id.to_owned(), post_id: post_id.to_owned() });
        proof {
            let db = *session;
            assert(db.likes@.drop_last() =~= old(session).likes@);
            assert forall|k: int| 0 <= k < db.likes@.len() implies #[trigger] has_post(*old(session), db.likes@[k].post_id@) by {
                if k < old(session).likes@.len() {
                    assert(has_post(*old(session), old(session).likes@[k].post_id@));
                }
            }
            lemma_wf_likes_changed(*old(session), db);
        }
        Ok(())
    }

    /// Removes every like by `user_id` on `post_id`.
    pub fn delete_ws(&self, user_id: &str, post_id: &str, session: &mut Database) -> (r: Result<(), StringError>)
        requires
            old(session).wf(),
        ensures
            like_deleted(*old(session), user_id@, post_id@, *final(session), r),
    {
        if !is_id_text(user_id) || !is_id_text(post_id) {
            return Err(StringError::new(ErrorKind::Validation, "Malformed user or post id"));
        }
        let user_key = user_id.to_owned();
        let post_key = post_id.to_owned();
        let mut taken: Vec<LikeDocument> = Vec::new();
        std::mem::swap(&mut taken, &mut session.likes);
        let mut kept: Vec<LikeDocument> = Vec::new();
        let mut i: usize = 0;
        while i < taken.len()
            invariant
                taken@ == old(session).likes@,
                user_key@ == user_id@,
                post_key@ == post_id@,
                i <= taken@.len(),
                kept@ == likes_without(taken@.subrange(0, i as int), user_id@, post_id@),
                forall|m: int| 0 <= m < kept@.len() ==> #[trigger] has_post(*old(session), kept@[m].post_id@),
                session.users == old(session).users,
                session.posts == old(session).posts,
                session.next_id == old(session).next_id,
                old(session).wf(),
            decreases taken@.len() - i,
        {
            let ghost next = taken@.subrange(0, i as int + 1);
            proof {
                assert(next.drop_last() =~= taken@.subrange(0, i as int));
                assert(next.last() == taken@[i as int]);
                assert(has_post(*old(session), old(session).likes@[i as int].post_id@));
            }
            let l = &taken[i];
            if !(l.user_id == user_key && l.post_id == post_key) {
                let ghost before = kept@;
                kept.push(LikeDocument { user_id: l.user_id.clone(), post_id: l.post_id.clone() });
                proof {
                    assert forall|m: int| 0 <= m < kept@.len() implies #[trigger] has_post(*old(session), kept@[m].post_id@) by {
                        if m < before.len() {
                            assert(kept@[m] == before[m]);
                            assert(has_post(*old(session), before[m].post_id@));
                        } else {
                            assert(kept@[m].post_id == taken@[i as int].post_id);
                            assert(has_post(*old(session), old(session).likes@[i as int].post_id@));
                        }
                    }
                }
            }
            i = i + 1;
        }
        proof {
            assert(taken@.subrange(0, taken@.len() as int) =~= taken@);
        }
        session.likes = kept;
        proof {
            lemma_wf_likes_changed(*old(session), *session);
        }
        Ok(())
    }
}

} // verus!
