//! Login session codes in the document backend, embedded in user documents.
use vstd::prelude::*;
use crate::error::{ErrorKind, StringError};
use crate::ids::{is_id, is_id_text};
use super::store::{
    has_user, holds_code, lemma_stored_id_well_formed, lemma_wf_user_replaced, user_at, Database,
    UserDocument,
};

verus! {

/// The login sessions of the document backend.
pub struct Session {}

/// No user but the one with identifier `user` holds `code`.
pub open spec fn code_free_for(db: Database, user: Seq<char>, code: Seq<char>) -> bool {
    forall|j: int| 0 <= j < db.users@.len() && #[trigger] holds_code(db.users@[j], code)
        ==> db.users@[j].id@ == user
}

/// `after` is `before` holding `code` as well, added at the end unless it
/// was there already.
pub open spec fn with_code(before: UserDocument, after: UserDocument, code: Seq<char>) -> bool {
    &&& after.id == before.id
    &&& after.first_name == before.first_name
    &&& after.last_name == before.last_name
    &&& after.email == before.email
    &&& after.password == before.password
    &&& after.settings == before.settings
    &&& if holds_code(before, code) {
        after.sessions == before.sessions
    } else {
        &&& after.sessions@.len() == before.sessions@.len() + 1
        &&& after.sessions@.drop_last() == before.sessions@
        &&& after.sessions@.last()@ == code
    }
}

/// Whether `u` holds `code`.
fn holds(u: &UserDocument, code: &String) -> (r: bool)
    ensures
        r == holds_code(*u, code@),
{
    let mut m: usize = 0;
    while m < u.sessions.len()
        invariant
            m <= u.sessions@.len(),
            forall|q: int| 0 <= q < m ==> u.sessions@[q]@ != code@,
        decreases u.sessions@.len() - m,
    {
        if u.sessions[m] == *code {
            return true;
        }
        m = m + 1;
    }
    false
}

/// What looking up the holder of `code` in `db` returns.
pub open spec fn owner_got(db: Database, code: Seq<char>, r: Result<String, StringError>) -> bool {
    &&& r is Ok <==> exists|k: int| 0 <= k < db.users@.len() && holds_code(#[trigger] db.users@[k], code)
    &&& r is Ok ==> exists|k: int| 0 <= k < db.users@.len() && holds_code(#[trigger] db.users@[k], code)
        && r->Ok_0 == db.users@[k].id
    &&& r is Err ==> r->Err_0.kind == ErrorKind::NotFound
        && r->Err_0.message@ == "User with this session code doesn't exist"@
}

/// What adding `code` to the user `user` in `before` leaves. A user
/// identifier that is not well formed is a validation failure, an unknown
/// user is not found, and a code that another user holds breaks integrity;
/// each leaves the database as it was.
pub open spec fn code_created(before: Database, user: Seq<char>, code: Seq<char>, after: Database, r: Result<(), StringError>) -> bool {
    &&& after.wf()
    &&& r is Ok <==> has_user(before, user) && code_free_for(before, user, code)
    &&& r is Err ==> after == before
    &&& r is Err && !is_id(user) ==> r->Err_0.kind == ErrorKind::Validation
    &&& r is Err && is_id(user) && !has_user(before, user) ==> r->Err_0.kind == ErrorKind::NotFound
    &&& r is Err && has_user(before, user) ==> r->Err_0.kind == ErrorKind::Integrity
    &&& r is Ok ==> {
        &&& after.users@.len() == before.users@.len()
        &&& forall|id: Seq<char>| #[trigger] has_user(after, id) == has_user(before, id)
        &&& forall|i: int| 0 <= i < before.users@.len() ==> if before.users@[i].id@ == user {
            with_code(before.users@[i], #[trigger] after.users@[i], code)
        } else {
            after.users@[i] == before.users@[i]
        }
    }
    &&& after.posts == before.posts
    &&& after.likes == before.likes
    &&& after.next_id == before.next_id
}

impl Session {
    pub fn new() -> Self {
        Session {}
    }

    /// The identifier of the user that holds `code`.
    pub fn get_user_id_ws(&self, code: &str, session: &Database) -> (r: Result<String, StringError>)
        ensures
            owner_got(*session, code@, r),
    {
        let key = code.to_owned();
        let mut k: usize = 0;
        while k < session.users.len()
            invariant
                key@ == code@,
                k <= session.users@.len(),
                forall|j: int| 0 <= j < k ==> !holds_code(#[trigger] session.users@[j], code@),
            decreases session.users@.len() - k,
        {
            if holds(&session.users[k], &key) {
                return Ok(session.users[k].id.clone());
            }
            k = k + 1;
        }
        Err(StringError::new(ErrorKind::NotFound, "User with this session code doesn't exist"))
    }

    /// Adds `code` to the codes of the user `user_id`. The user must exist,
    /// and no other user may hold the code; a code the user holds already is
    /// not added twice.
    pub fn create_ws(&self, user_id: &str, code: &str, session: &mut Database) -> (r: Result<(), StringError>)
        requires
            old(session).wf(),
        ensures
            code_created(*old(session), user_id@, code@, *final(session), r),
    {
        if !is_id_text(user_id) {
            proof {
                if has_user(*session, user_id@) {
                    lemma_stored_id_well_formed(*session, user_id@);
                }
            }
            return Err(StringError::new(ErrorKind::Validation, "Malformed user id"));
        }
        let k = match session.find_user(user_id) {
            Some(k) => k,
            None => {
                return Err(StringError::new(ErrorKind::NotFound, "User with this id doesn't exist"));
            },
        };
        let key = code.to_owned();
        let mut j: usize = 0;
        while j < session.users.len()
            invariant
                key@ == code@,
                is_id(user_id@),
                k < session.users@.len(),
                user_at(*session, k as int, user_id@),
                session == old(session),
                old(session).wf(),
                j <= session.users@.len(),
                forall|q: int| 0 <= q < j && #[trigger] holds_code(session.users@[q], code@)
                    ==> session.users@[q].id@ == user_id@,
            decreases session.users@.len() - j,
        {
            if j != k && holds(&session.users[j], &key) {
                proof {
                    assert(session.users@[j as int].id@ != session.users@[k as int].id@);
                }
                return Err(StringError::new(ErrorKind::Integrity, "This session code belongs to another user"));
            }
            j = j + 1;
        }
        if holds(&session.users[k], &key) {
            proof {
                assert forall|i: int| 0 <= i < old(session).users@.len() && old(session).users@[i].id@ == user_id@
                    implies i == k by {
                    assert(old(session).users@[i].id@ == old(session).users@[k as int].id@);
                }
            }
            return Ok(());
        }
        let mut u = session.users.remove(k);
        u.sessions.push(key);
        session.users.insert(k, u);
        proof {
            let db = *session;
            let before = *old(session);
            assert(db.users@ =~= before.users@.update(k as int, u));
            assert(u.sessions@.drop_last() =~= before.users@[k as int].sessions@);
            assert forall|c: Seq<char>| #[trigger] holds_code(db.users@[k as int], c)
                implies holds_code(before.users@[k as int], c) || c == code@ by {
                let m = choose|m: int| 0 <= m < db.users@[k as int].sessions@.len()
                    && db.users@[k as int].sessions@[m]@ == c;
                if m < before.users@[k as int].sessions@.len() {
                    assert(before.users@[k as int].sessions@[m] == db.users@[k as int].sessions@[m]);
                }
            }
            assert forall|j: int, c: Seq<char>| 0 <= j < before.users@.len() && j != k
                && #[trigger] holds_code(u, c) && #[trigger] holds_code(before.users@[j], c)
                implies holds_code(before.users@[k as int], c) by {
                assert(holds_code(db.users@[k as int], c));
                if c == code@ {
                    assert(before.users@[j].id@ == user_id@);
                    assert(before.users@[j].id@ == before.users@[k as int].id@);
                }
            }
            lemma_wf_user_replaced(before, db, k as int, u);
            assert forall|id: Seq<char>| #[trigger] has_user(db, id) == has_user(before, id) by {
                if has_user(before, id) {
                    let w = choose|w: int| 0 <= w < before.users@.len() && before.users@[w].id@ == id;
                    assert(db.users@[w].id@ == id);
                }
                if has_user(db, id) {
                    let w = choose|w: int| 0 <= w < db.users@.len() && db.users@[w].id@ == id;
                    assert(before.users@[w].id@ == id);
                }
            }
            assert forall|i: int| 0 <= i < before.users@.len() implies if before.users@[i].id@ == user_id@ {
                with_code(before.users@[i], #[trigger] db.users@[i], code@)
            } else {
                db.users@[i] == before.users@[i]
            } by {
                if before.users@[i].id@ == user_id@ {
                    assert(before.users@[i].id@ == before.users@[k as int].id@);
                }
            }
        }
        Ok(())
    }
}

} // verus!
