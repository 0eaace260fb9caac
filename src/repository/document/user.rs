//! Users in the document backend: creation, authentication, settings.
use vstd::prelude::*;
use crate::auth::{digest_password, md5_hex_of, new_password_digest, password_accepted};
use crate::error::{ErrorKind, StringError};
use crate::ids::{decimal, is_id, is_id_text, lemma_decimal_round_trip};
use crate::models;
use super::store::{
    has_user, holds_code, lemma_stored_id_well_formed, lemma_wf_user_appended, lemma_wf_user_replaced,
    user_at, Database, SettingsDocument, UserDocument,
};

verus! {

/// The users of the document backend.
pub struct User {}

/// `d` is the document stored for the new user `u` under identifier `id`.
pub open spec fn stored_user(d: UserDocument, u: models::User, id: String) -> bool {
    &&& d.id == id
    &&& d.first_name == u.first_name
    &&& d.last_name == u.last_name
    &&& d.email == u.email
    &&& d.password@ == md5_hex_of(u.password->0@)
    &&& d.settings.posts_per_page == u.settings.posts_per_page
    &&& d.settings.display_email == u.settings.display_email
    &&& d.sessions@.len() == 0
}

/// `r` is the user document `d` read with its settings: the email shows only
/// where the user chose to display it; the password never shows.
pub open spec fn settings_view(d: UserDocument, r: models::User) -> bool {
    &&& r.id == d.id
    &&& r.first_name == d.first_name
    &&& r.last_name == d.last_name
    &&& r.email == (if d.settings.display_email { d.email } else { None })
    &&& r.password is None
    &&& r.settings.id@.len() == 0
    &&& r.settings.user_id == d.id
    &&& r.settings.posts_per_page == d.settings.posts_per_page
    &&& r.settings.display_email == d.settings.display_email
}

/// The user document at index `k` has email `email` and password digest
/// `digest`.
pub open spec fn credentials_at(db: Database, k: int, email: Seq<char>, digest: Seq<char>) -> bool {
    &&& 0 <= k < db.users@.len()
    &&& db.users@[k].email is Some
    &&& db.users@[k].email->0@ == email
    &&& db.users@[k].password@ == digest
}

/// `after` is `before` with its settings replaced by `s`.
pub open spec fn with_settings(before: UserDocument, after: UserDocument, s: models::Settings) -> bool {
    &&& after.id == before.id
    &&& after.first_name == before.first_name
    &&& after.last_name == before.last_name
    &&& after.email == before.email
    &&& after.password == before.password
    &&& after.sessions == before.sessions
    &&& after.settings.posts_per_page == s.posts_per_page
    &&& after.settings.display_email == s.display_email
}

/// What creating `user` in `before` leaves: the database `after`, the user
/// `user_after` and the result `r`. A refused password changes nothing.
pub open spec fn user_created(
    before: Database,
    user: models::User,
    after: Database,
    user_after: models::User,
    r: Result<String, StringError>,
) -> bool {
    &&& after.wf()
    &&& r is Ok <==> password_accepted(user.password)
    &&& r is Err ==> r->Err_0.kind == ErrorKind::Validation && after == before && user_after == user
    &&& r is Ok ==> {
        &&& r->Ok_0@ == decimal(before.next_id as nat)
        &&& after.users@.len() == before.users@.len() + 1
        &&& after.users@.drop_last() == before.users@
        &&& stored_user(after.users@.last(), user, r->Ok_0)
        &&& is_id(r->Ok_0@)
        &&& has_user(after, r->Ok_0@)
        &&& after.posts == before.posts
        &&& after.likes == before.likes
        &&& after.next_id == before.next_id + 1
        &&& user_after.id == r->Ok_0
        &&& user_after.settings.user_id == r->Ok_0
        &&& user_after.first_name == user.first_name
        &&& user_after.last_name == user.last_name
        &&& user_after.email == user.email
        &&& user_after.password == user.password
        &&& user_after.settings.id == user.settings.id
        &&& user_after.settings.posts_per_page == user.settings.posts_per_page
        &&& user_after.settings.display_email == user.settings.display_email
    }
}

/// What looking up the user with `email` and `password` in `db` returns: the
/// first user whose email matches and whose digest is the password's.
pub open spec fn id_got(db: Database, email: Seq<char>, password: Seq<char>, r: Result<String, StringError>) -> bool {
    &&& r is Ok <==> exists|k: int| #![trigger db.users@[k]] credentials_at(db, k, email, md5_hex_of(password))
    &&& r is Ok ==> exists|k: int| credentials_at(db, k, email, md5_hex_of(password))
        && (forall|j: int| 0 <= j < k ==> !credentials_at(db, j, email, md5_hex_of(password)))
        && r->Ok_0 == #[trigger] db.users@[k].id
    &&& r is Err ==> r->Err_0.kind == ErrorKind::NotFound
        && r->Err_0.message@ == "User with this email and password doesn't exist"@
}

/// What reading the user `id` with its settings from `db` returns. An
/// identifier that is not well formed is a validation failure.
pub open spec fn settings_got(db: Database, id: Seq<char>, r: Result<models::User, StringError>) -> bool {
    &&& r is Ok <==> has_user(db, id)
    &&& r is Ok ==> exists|k: int| user_at(db, k, id) && settings_view(#[trigger] db.users@[k], r->Ok_0)
    &&& r is Err && !is_id(id) ==> r->Err_0.kind == ErrorKind::Validation
    &&& r is Err && is_id(id) ==> r->Err_0.kind == ErrorKind::NotFound
}

/// What editing `settings` in `before` leaves: the user they name gets them;
/// with no such user nothing changes. A `user_id` that is not a well-formed
/// identifier is a validation failure, and nothing changes.
pub open spec fn settings_edited(before: Database, settings: models::Settings, after: Database, r: Result<(), StringError>) -> bool {
    &&& after.wf()
    &&& r is Ok <==> is_id(settings.user_id@)
    &&& r is Err ==> r->Err_0.kind == ErrorKind::Validation && after == before
    &&& r is Ok ==> {
        &&& after.users@.len() == before.users@.len()
        &&& forall|id: Seq<char>| #[trigger] has_user(after, id) == has_user(before, id)
        &&& forall|i: int| 0 <= i < before.users@.len() ==> if before.users@[i].id@ == settings.user_id@ {
            with_settings(before.users@[i], #[trigger] after.users@[i], settings)
        } else {
            after.users@[i] == before.users@[i]
        }
        &&& after.posts == before.posts
        &&& after.likes == before.likes
        &&& after.next_id == before.next_id
    }
}

impl User {
    pub fn new() -> Self {
        User {}
    }

    /// Stores a new user with its settings and no session codes; the password
    /// is stored as its digest. A missing or empty password is refused and
    /// nothing is stored. On success `user` gets the new identifier, and so
    /// does its settings' back-reference.
    pub fn create_ws(&self, user: &mut models::User, session: &mut Database) -> (r: Result<String, StringError>)
        requires
            old(session).wf(),
            old(session).next_id < u64::MAX,
        ensures
            user_created(*old(session), *old(user), *final(session), *final(user), r),
    {
        let digest = match new_password_digest(&user.password) {
            Ok(d) => d,
            Err(e) => {
                return Err(e);
            },
        };
        let ghost before = *session;
        let id = session.issue_id();
        let doc = UserDocument {
            id: id.clone(),
            first_name: user.first_name.clone(),
            last_name: user.last_name.clone(),
            email: models::copy_text(&user.email),
            password: digest,
            settings: SettingsDocument {
                posts_per_page: user.settings.posts_per_page,
                display_email: user.settings.display_email,
            },
            sessions: Vec::new(),
        };
        session.users.push(doc);
        proof {
            lemma_wf_user_appended(before, *session, doc);
            assert(session.users@.drop_last() =~= old(session).users@);
            assert(user_at(*session, before.users@.len() as int, id@));
            lemma_decimal_round_trip(before.next_id as nat);
        }
        user.id = id.clone();
        user.settings.user_id = id.clone();
        Ok(id)
    }

    /// The identifier of the first user with this email whose password
    /// digest matches `password`. No match is "not found", whether the email
    /// is unknown or the password wrong.
    pub fn get_id_ws(&self, email: &str, password: &str, session: &Database) -> (r: Result<String, StringError>)
        ensures
            id_got(*session, email@, password@, r),
    {
        let digest = digest_password(password);
        let key = email.to_owned();
        let mut k: usize = 0;
        while k < session.users.len()
            invariant
                key@ == email@,
                digest@ == md5_hex_of(password@),
                k <= session.users@.len(),
                forall|j: int| 0 <= j < k ==> !credentials_at(*session, j, email@, md5_hex_of(password@)),
            decreases session.users@.len() - k,
        {
            let u = &session.users[k];
            let email_matches = match &u.email {
                Some(e) => *e == key,
                None => false,
            };
            if email_matches && u.password == digest {
                assert(credentials_at(*session, k as int, email@, md5_hex_of(password@)));
                return Ok(u.id.clone());
            }
            k = k + 1;
        }
        Err(StringError::new(ErrorKind::NotFound, "User with this email and password doesn't exist"))
    }

    /// The user with identifier `id`, read with its settings.
    pub fn get_user_settings_ws(&self, id: &str, session: &Database) -> (r: Result<models::User, StringError>)
        requires
            session.wf(),
        ensures
            settings_got(*session, id@, r),
    {
        if !is_id_text(id) {
            proof {
                if has_user(*session, id@) {
                    lemma_stored_id_well_formed(*session, id@);
                }
            }
            return Err(StringError::new(ErrorKind::Validation, "Malformed user id"));
        }
        match session.find_user(id) {
            Some(k) => Ok(self.read(&session.users[k])),
            None => Err(StringError::new(ErrorKind::NotFound, "User with this id doesn't exist")),
        }
    }

    /// Replaces the settings of the user that `settings.user_id` names; with
    /// no such user nothing changes.
    pub fn edit_ws(&self, settings: &models::Settings, session: &mut Database) -> (r: Result<(), StringError>)
        requires
            old(session).wf(),
        ensures
            settings_edited(*old(session), *settings, *final(session), r),
    {
        if !is_id_text(settings.user_id.as_str()) {
            return Err(StringError::new(ErrorKind::Validation, "Malformed user id"));
        }
        match session.find_user(settings.user_id.as_str()) {
            Some(k) => {
                let ghost before = *session;
                let mut u = session.users.remove(k);
                u.settings = SettingsDocument {
                    posts_per_page: settings.posts_per_page,
                    display_email: settings.display_email,
                };
                session.users.insert(k, u);
                proof {
                    assert(session.users@ =~= before.users@.update(k as int, u));
                    assert forall|c: Seq<char>| #[trigger] holds_code(u, c) implies holds_code(before.users@[k as int], c) by {
                        let m = choose|m: int| 0 <= m < u.sessions@.len() && u.sessions@[m]@ == c;
                        assert(before.users@[k as int].sessions@[m] == u.sessions@[m]);
                    }
                    lemma_wf_user_replaced(before, *session, k as int, u);
                    assert forall|id: Seq<char>| #[trigger] has_user(*session, id) == has_user(before, id) by {
                        if has_user(before, id) {
                            let w = choose|w: int| 0 <= w < before.users@.len() && before.users@[w].id@ == id;
                            assert(session.users@[w].id@ == id);
                        }
                        if has_user(*session, id) {
                            let w = choose|w: int| 0 <= w < session.users@.len() && session.users@[w].id@ == id;
                            assert(before.users@[w].id@ == id);
                        }
                    }
                    assert forall|i: int| 0 <= i < before.users@.len() implies if before.users@[i].id@ == settings.user_id@ {
                        with_settings(before.users@[i], #[trigger] session.users@[i], *settings)
                    } else {
                        session.users@[i] == before.users@[i]
                    } by {
                        if before.users@[i].id@ == settings.user_id@ {
                            assert(before.users@[i].id@ == before.users@[k as int].id@);
                        }
                    }
                }
            },
            None => {
                assert forall|i: int| 0 <= i < old(session).users@.len()
                    implies old(session).users@[i].id@ != settings.user_id@ by {
                    assert(!user_at(*old(session), i, settings.user_id@));
                }
            },
        }
        Ok(())
    }

    /// A user document read with its settings.
    pub fn read(&self, doc: &UserDocument) -> (r: models::User)
        ensures
            settings_view(*doc, r),
    {
        let email = if doc.settings.display_email {
            models::copy_text(&doc.email)
        } else {
            None
        };
        models::User {
            id: doc.id.clone(),
            first_name: doc.first_name.clone(),
            last_name: doc.last_name.clone(),
            email,
            password: None,
            settings: models::Settings {
                id: String::new(),
                user_id: doc.id.clone(),
                posts_per_page: doc.settings.posts_per_page,
                display_email: doc.settings.display_email,
            },
        }
    }
}

} // verus!
