//! The collections of the document backend and what a well-formed store holds.
use vstd::prelude::*;
use crate::ids::{decimal, decimal_value, id_text, is_id, lemma_decimal_round_trip};

verus! {

/// The settings embedded in a user document.
#[derive(Debug)]
pub struct SettingsDocument {
    pub posts_per_page: i32,
    pub display_email: bool,
}

/// A user document: the user's fields, the digest of its password, its
/// settings and the session codes that log it in.
#[derive(Debug)]
pub struct UserDocument {
    pub id: String,
    pub first_name: String,
    pub last_name: String,
    pub email: Option<String>,
    pub password: String,
    pub settings: SettingsDocument,
    pub sessions: Vec<String>,
}

/// A post document; `user_id` refers to its author.
#[derive(Debug)]
pub struct PostDocument {
    pub id: String,
    pub user_id: Option<String>,
    pub title: String,
    pub text: Option<String>,
    pub description: Option<String>,
}

/// A like: the user who liked and the post liked.
#[derive(Debug)]
pub struct LikeDocument {
    pub user_id: String,
    pub post_id: String,
}

/// The collections of one database, and the number of the next identifier
/// to hand out.
#[derive(Debug)]
pub struct Database {
    pub users: Vec<UserDocument>,
    pub posts: Vec<PostDocument>,
    pub likes: Vec<LikeDocument>,
    pub next_id: u64,
}

/// `id` is the identifier of a record numbered below `next`.
pub open spec fn issued_below(id: Seq<char>, next: u64) -> bool {
    &&& decimal(decimal_value(id)) == id
    &&& decimal_value(id) < next
}

/// The user document at index `k` has identifier `id`.
pub open spec fn user_at(db: Database, k: int, id: Seq<char>) -> bool {
    0 <= k < db.users@.len() && db.users@[k].id@ == id
}

/// The post document at index `k` has identifier `id`.
pub open spec fn post_at(db: Database, k: int, id: Seq<char>) -> bool {
    0 <= k < db.posts@.len() && db.posts@[k].id@ == id
}

/// Some user document of `users` has identifier `id`.
pub open spec fn users_have(users: Seq<UserDocument>, id: Seq<char>) -> bool {
    exists|k: int| 0 <= k < users.len() && #[trigger] users[k].id@ == id
}

/// Some post document of `posts` has identifier `id`.
pub open spec fn posts_have(posts: Seq<PostDocument>, id: Seq<char>) -> bool {
    exists|k: int| 0 <= k < posts.len() && #[trigger] posts[k].id@ == id
}

/// Some like of `likes` is by `user` on `post`.
pub open spec fn likes_have(likes: Seq<LikeDocument>, user: Seq<char>, post: Seq<char>) -> bool {
    exists|k: int| 0 <= k < likes.len() && #[trigger] likes[k].user_id@ == user && likes[k].post_id@ == post
}

pub open spec fn has_user(db: Database, id: Seq<char>) -> bool {
    users_have(db.users@, id)
}

pub open spec fn has_post(db: Database, id: Seq<char>) -> bool {
    posts_have(db.posts@, id)
}

/// The like at index `k` is by `user` on `post`.
pub open spec fn like_at(db: Database, k: int, user: Seq<char>, post: Seq<char>) -> bool {
    &&& 0 <= k < db.likes@.len()
    &&& db.likes@[k].user_id@ == user
    &&& db.likes@[k].post_id@ == post
}

pub open spec fn has_like(db: Database, user: Seq<char>, post: Seq<char>) -> bool {
    likes_have(db.likes@, user, post)
}

/// Whether `viewer` likes the post; with no viewer, nothing is liked.
pub open spec fn liked_by(db: Database, viewer: Option<&str>, post: Seq<char>) -> bool {
    match viewer {
        Some(v) => has_like(db, v@, post),
        None => false,
    }
}

/// The user document holds the session code `code`.
pub open spec fn holds_code(u: UserDocument, code: Seq<char>) -> bool {
    exists|m: int| 0 <= m < u.sessions@.len() && u.sessions@[m]@ == code
}

impl Database {
    /// Identifiers are issued from the counter and are unique within their
    /// collection; every like refers to a post; a session code belongs to one
    /// user at most.
    pub open spec fn wf(self) -> bool {
        &&& forall|i: int| 0 <= i < self.users@.len()
            ==> #[trigger] issued_below(self.users@[i].id@, self.next_id)
        &&& forall|i: int| 0 <= i < self.posts@.len()
            ==> #[trigger] issued_below(self.posts@[i].id@, self.next_id)
        &&& forall|i: int, j: int| 0 <= i < self.users@.len() && 0 <= j < self.users@.len()
            && #[trigger] self.users@[i].id@ == #[trigger] self.users@[j].id@ ==> i == j
        &&& forall|i: int, j: int| 0 <= i < self.posts@.len() && 0 <= j < self.posts@.len()
            && #[trigger] self.posts@[i].id@ == #[trigger] self.posts@[j].id@ ==> i == j
        &&& forall|k: int| 0 <= k < self.likes@.len()
            ==> #[trigger] has_post(self, self.likes@[k].post_id@)
        &&& forall|i: int, j: int, c: Seq<char>|
            0 <= i < self.users@.len() && 0 <= j < self.users@.len()
            && #[trigger] holds_code(self.users@[i], c) && #[trigger] holds_code(self.users@[j], c)
            ==> i == j
    }

    /// An empty database.
    pub fn new() -> (r: Self)
        ensures
            r.wf(),
            r.users@.len() == 0,
            r.posts@.len() == 0,
            r.likes@.len() == 0,
            r.next_id == 1,
    {
        Database { users: Vec::new(), posts: Vec::new(), likes: Vec::new(), next_id: 1 }
    }

    /// Hands out the next identifier.
    pub(crate) fn issue_id(&mut self) -> (r: String)
        requires
            old(self).next_id < u64::MAX,
        ensures
            r@ == decimal(old(self).next_id as nat),
            issued_below(r@, final(self).next_id),
            final(self).next_id == old(self).next_id + 1,
            final(self).users == old(self).users,
            final(self).posts == old(self).posts,
            final(self).likes == old(self).likes,
    {
        let r = id_text(self.next_id);
        self.next_id = self.next_id + 1;
        r
    }

    /// The index of the user document with identifier `id`, if any.
    pub fn find_user(&self, id: &str) -> (r: Option<usize>)
        ensures
            r is Some ==> user_at(*self, r->0 as int, id@),
            r is None ==> !has_user(*self, id@),
    {
        let key = id.to_owned();
        let mut k: usize = 0;
        while k < self.users.len()
            invariant
                key@ == id@,
                k <= self.users@.len(),
                forall|j: int| 0 <= j < k ==> self.users@[j].id@ != id@,
            decreases self.users@.len() - k,
        {
            if self.users[k].id == key {
                return Some(k);
            }
            k = k + 1;
        }
        None
    }

    /// The index of the post document with identifier `id`, if any.
    pub fn find_post(&self, id: &str) -> (r: Option<usize>)
        ensures
            r is Some ==> post_at(*self, r->0 as int, id@),
            r is None ==> !has_post(*self, id@),
    {
        let key = id.to_owned();
        let mut k: usize = 0;
        while k < self.posts.len()
            invariant
                key@ == id@,
                k <= self.posts@.len(),
                forall|j: int| 0 <= j < k ==> self.posts@[j].id@ != id@,
            decreases self.posts@.len() - k,
        {
            if self.posts[k].id == key {
                return Some(k);
            }
            k = k + 1;
        }
        None
    }

    /// Whether `user` likes `post`.
    pub fn like_exists(&self, user: &str, post: &str) -> (r: bool)
        ensures
            r == has_like(*self, user@, post@),
    {
        let user_key = user.to_owned();
        let post_key = post.to_owned();
        let mut k: usize = 0;
        while k < self.likes.len()
            invariant
                user_key@ == user@,
                post_key@ == post@,
                k <= self.likes@.len(),
                forall|j: int| 0 <= j < k ==> !(self.likes@[j].user_id@ == user@ && self.likes@[j].post_id@ == post@),
            decreases self.likes@.len() - k,
        {
            if self.likes[k].user_id == user_key && self.likes[k].post_id == post_key {
                assert(like_at(*self, k as int, user@, post@));
                return true;
            }
            k = k + 1;
        }
        false
    }
}

/// Whether a post exists depends on the posts collection alone.
pub proof fn lemma_has_post_same_posts(a: Database, b: Database, id: Seq<char>)
    requires
        a.posts == b.posts,
        has_post(a, id),
    ensures
        has_post(b, id),
{
    let m = choose|m: int| 0 <= m < a.posts@.len() && a.posts@[m].id@ == id;
    assert(post_at(b, m, id));
}

/// Every identifier of a stored user or post is well formed.
pub proof fn lemma_stored_id_well_formed(db: Database, id: Seq<char>)
    requires
        db.wf(),
        has_user(db, id) || has_post(db, id),
    ensures
        is_id(id),
{
    if has_user(db, id) {
        let k = choose|k: int| 0 <= k < db.users@.len() && db.users@[k].id@ == id;
        assert(issued_below(db.users@[k].id@, db.next_id));
    } else {
        let k = choose|k: int| 0 <= k < db.posts@.len() && db.posts@[k].id@ == id;
        assert(issued_below(db.posts@[k].id@, db.next_id));
    }
}

/// A database whose likes change, and nothing else, stays well formed when
/// every like still refers to a post.
pub proof fn lemma_wf_likes_changed(before: Database, after: Database)
    requires
        before.wf(),
        after.users == before.users,
        after.posts == before.posts,
        after.next_id == before.next_id,
        forall|k: int| 0 <= k < after.likes@.len() ==> #[trigger] has_post(before, after.likes@[k].post_id@),
    ensures
        after.wf(),
{
    assert forall|k: int| 0 <= k < after.likes@.len() implies #[trigger] has_post(after, after.likes@[k].post_id@) by {
        lemma_has_post_same_posts(before, after, after.likes@[k].post_id@);
    }
}

/// Appending a post under the next identifier keeps a database well formed.
pub proof fn lemma_wf_post_appended(before: Database, after: Database, doc: PostDocument)
    requires
        before.wf(),
        before.next_id < u64::MAX,
        doc.id@ == decimal(before.next_id as nat),
        after.posts@ == before.posts@.push(doc),
        after.users == before.users,
        after.likes == before.likes,
        after.next_id == before.next_id + 1,
    ensures
        after.wf(),
{
    lemma_fresh_id(before);
    lemma_decimal_round_trip(before.next_id as nat);
    let last = before.posts@.len() as int;
    assert forall|k: int| 0 <= k < after.likes@.len() implies #[trigger] has_post(after, after.likes@[k].post_id@) by {
        assert(has_post(before, before.likes@[k].post_id@));
        let m = choose|m: int| 0 <= m < before.posts@.len() && before.posts@[m].id@ == before.likes@[k].post_id@;
        assert(post_at(after, m, after.likes@[k].post_id@));
    }
    assert forall|i: int| 0 <= i < after.users@.len() implies #[trigger] issued_below(after.users@[i].id@, after.next_id) by {
        assert(issued_below(before.users@[i].id@, before.next_id));
    }
    assert forall|i: int| 0 <= i < after.posts@.len() implies #[trigger] issued_below(after.posts@[i].id@, after.next_id) by {
        if i < last {
            assert(issued_below(before.posts@[i].id@, before.next_id));
        }
    }
    assert forall|i: int, j: int| 0 <= i < after.posts@.len() && 0 <= j < after.posts@.len()
        && #[trigger] after.posts@[i].id@ == #[trigger] after.posts@[j].id@ implies i == j by {
        if i == last && j < last {
            assert(post_at(before, j, doc.id@));
        } else if j == last && i < last {
            assert(post_at(before, i, doc.id@));
        }
    }
}

/// Appending a user with no session codes under the next identifier keeps a
/// database well formed.
pub proof fn lemma_wf_user_appended(before: Database, after: Database, doc: UserDocument)
    requires
        before.wf(),
        before.next_id < u64::MAX,
        doc.id@ == decimal(before.next_id as nat),
        doc.sessions@.len() == 0,
        after.users@ == before.users@.push(doc),
        after.posts == before.posts,
        after.likes == before.likes,
        after.next_id == before.next_id + 1,
    ensures
        after.wf(),
{
    lemma_fresh_id(before);
    lemma_decimal_round_trip(before.next_id as nat);
    let last = before.users@.len() as int;
    assert forall|i: int| 0 <= i < after.users@.len() implies #[trigger] issued_below(after.users@[i].id@, after.next_id) by {
        if i < last {
            assert(issued_below(before.users@[i].id@, before.next_id));
        }
    }
    assert forall|i: int| 0 <= i < after.posts@.len() implies #[trigger] issued_below(after.posts@[i].id@, after.next_id) by {
        assert(issued_below(before.posts@[i].id@, before.next_id));
    }
    assert forall|i: int, j: int| 0 <= i < after.users@.len() && 0 <= j < after.users@.len()
        && #[trigger] after.users@[i].id@ == #[trigger] after.users@[j].id@ implies i == j by {
        if i == last && j < last {
            assert(user_at(before, j, doc.id@));
        } else if j == last && i < last {
            assert(user_at(before, i, doc.id@));
        }
    }
    assert forall|k: int| 0 <= k < after.likes@.len() implies #[trigger] has_post(after, after.likes@[k].post_id@) by {
        lemma_has_post_same_posts(before, after, after.likes@[k].post_id@);
    }
    assert forall|i: int, j: int, c: Seq<char>|
        0 <= i < after.users@.len() && 0 <= j < after.users@.len()
        && #[trigger] holds_code(after.users@[i], c) && #[trigger] holds_code(after.users@[j], c)
        implies i == j by {
        if i == last {
            assert(after.users@[i].sessions@.len() == 0);
        } else if j == last {
            assert(after.users@[j].sessions@.len() == 0);
        } else {
            assert(after.users@[i] == before.users@[i]);
            assert(after.users@[j] == before.users@[j]);
        }
    }
}

/// Replacing the user document at `k` by one with the same identifier keeps
/// a database well formed, when no other user holds a code that the new
/// document holds and the old one did not.
pub proof fn lemma_wf_user_replaced(before: Database, after: Database, k: int, u: UserDocument)
    requires
        before.wf(),
        0 <= k < before.users@.len(),
        u.id == before.users@[k].id,
        after.users@ == before.users@.update(k, u),
        after.posts == before.posts,
        after.likes == before.likes,
        after.next_id == before.next_id,
        forall|j: int, c: Seq<char>| 0 <= j < before.users@.len() && j != k
            && #[trigger] holds_code(u, c) && #[trigger] holds_code(before.users@[j], c)
            ==> holds_code(before.users@[k], c),
    ensures
        after.wf(),
{
    assert forall|i: int| 0 <= i < after.users@.len() implies #[trigger] issued_below(after.users@[i].id@, after.next_id) by {
        assert(issued_below(before.users@[i].id@, before.next_id));
    }
    assert forall|i: int, j: int| 0 <= i < after.users@.len() && 0 <= j < after.users@.len()
        && #[trigger] after.users@[i].id@ == #[trigger] after.users@[j].id@ implies i == j by {
        assert(before.users@[i].id@ == before.users@[j].id@);
    }
    assert forall|q: int| 0 <= q < after.likes@.len() implies #[trigger] has_post(after, after.likes@[q].post_id@) by {
        lemma_has_post_same_posts(before, after, after.likes@[q].post_id@);
    }
    assert forall|i: int, j: int, c: Seq<char>|
        0 <= i < after.users@.len() && 0 <= j < after.users@.len()
        && #[trigger] holds_code(after.users@[i], c) && #[trigger] holds_code(after.users@[j], c)
        implies i == j by {
        if i == k && j != k {
            assert(holds_code(before.users@[j], c));
            assert(holds_code(before.users@[k], c));
        } else if j == k && i != k {
            assert(holds_code(before.users@[i], c));
            assert(holds_code(before.users@[k], c));
        } else if i != k && j != k {
            assert(holds_code(before.users@[i], c));
            assert(holds_code(before.users@[j], c));
        }
    }
}

/// An identifier handed out from the counter is not yet used by any record
/// of a well-formed database.
pub proof fn lemma_fresh_id(db: Database)
    requires
        db.wf(),
    ensures
        !has_user(db, decimal(db.next_id as nat)),
        !has_post(db, decimal(db.next_id as nat)),
{
    lemma_decimal_round_trip(db.next_id as nat);
    assert forall|k: int| 0 <= k < db.users@.len() implies #[trigger] db.users@[k].id@ != decimal(db.next_id as nat) by {
        if user_at(db, k, decimal(db.next_id as nat)) {
            assert(issued_below(db.users@[k].id@, db.next_id));
        }
    }
    assert forall|k: int| 0 <= k < db.posts@.len() implies #[trigger] db.posts@[k].id@ != decimal(db.next_id as nat) by {
        if post_at(db, k, decimal(db.next_id as nat)) {
            assert(issued_below(db.posts@[k].id@, db.next_id));
        }
    }
}

} // verus!
