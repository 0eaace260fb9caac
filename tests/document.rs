use blog_store::error::{ErrorKind, StringError};
use blog_store::models;
use blog_store::repository::document::like::Like;
use blog_store::repository::document::post::Post;
use blog_store::repository::document::session::Session;
use blog_store::repository::document::store::Database;
use blog_store::repository::document::user::User;

fn sample_user(name: &str, email: &str, password: Option<&str>) -> models::User {
    models::User {
        id: String::new(),
        first_name: name.to_owned(),
        last_name: name.to_owned(),
        email: Some(email.to_owned()),
        password: password.map(|p| p.to_owned()),
        settings: models::Settings::new(),
    }
}

#[test]
fn post_test_post() -> Result<(), StringError> {
    let mut user = models::User {
        id: String::new(),
        first_name: "__test_2__".to_owned(),
        last_name: "__test_2__".to_owned(),
        email: Some("__test_2__@2.again".to_owned()),
        password: Some("test".to_owned()),

        settings: models::Settings::new(),
    };

    let user_repository = User::new();
    let post_repository = Post::new();
    let like_repository = Like::new();

    let mut session = Database::new();

    user_repository.create_ws(&mut user, &mut session)?;

    assert!(!user.id.is_empty());

    let post = models::Post {
        id: String::new(),
        title: "__title_1".to_owned(),
        text: Some("__text_1".to_owned()),
        description: Some("__abstract_1".to_owned()),
        liked: false,
        author: Some(user),
    };

    let user = post.author.as_ref().unwrap();

    let post_id = post_repository.create_ws(&post, &mut session)?;

    assert!(!post_id.is_empty());

    let post_by_id = post_repository.get_ws(&post_id, Some(&user.id), &session)?;

    assert_eq!(post_by_id.id, post_id);
    assert_eq!(post_by_id.title, post.title);
    assert_eq!(post_by_id.text, post.text);
    assert_eq!(post_by_id.description, post.description);
    assert_eq!(post_by_id.liked, post.liked);

    assert_eq!(post_by_id.author.as_ref().unwrap().id, user.id);
    assert_eq!(post_by_id.author.as_ref().unwrap().first_name, user.first_name);
    assert_eq!(post_by_id.author.as_ref().unwrap().last_name, user.last_name);

    if user.settings.display_email {
        assert_eq!(post_by_id.author.as_ref().unwrap().email, user.email);
    } else {
        assert!(post_by_id.author.as_ref().unwrap().email.is_none());
    }

    let posts = post_repository.list_ws(Some(&user.id), &session)?;

    assert!(posts.len() > 0);
    assert!(posts.iter().find(|p| p.id == post_id).is_some());

    let liked_posts = post_repository.liked_list_ws(&user.id, &session)?;

    assert_eq!(liked_posts.len(), 0);

    like_repository.create_ws(&user.id, &post_id, &mut session)?;

    let liked_posts_2 = post_repository.liked_list_ws(&user.id, &session)?;

    assert!(liked_posts_2.len() > 0);
    assert!(liked_posts_2.iter().find(|p| p.id == post_id && p.liked).is_some());

    like_repository.delete_ws(&user.id, &post_id, &mut session)?;

    let liked_posts_3 = post_repository.liked_list_ws(&user.id, &session)?;

    assert_eq!(liked_posts_3.len(), 0);

    Ok(())
}

#[test]
fn user_test_user() -> Result<(), StringError> {
    let mut user = models::User {
        id: String::new(),
        first_name: "__test_1__".to_owned(),
        last_name: "__test_1__".to_owned(),
        email: Some("__test_1__@1.again".to_owned()),
        password: Some("test".to_owned()),

        settings: models::Settings::new(),
    };

    let user_repository = User::new();
    let session_repository = Session::new();

    let mut session = Database::new();

    user_repository.create_ws(&mut user, &mut session)?;

    assert!(!user.id.is_empty());
    assert!(!user.settings.user_id.is_empty());

    let user_id = user_repository.get_id_ws(
        user.email.as_ref().unwrap(),
        user.password.as_ref().unwrap(),
        &session,
    )?;

    assert_eq!(user_id, user.id);

    let mut user_settings = user_repository.get_user_settings_ws(&user.id, &session)?;

    assert_eq!(user_settings.id, user.id);
    assert_eq!(user_settings.first_name, user.first_name);
    assert_eq!(user_settings.last_name, user.last_name);

    if user.settings.display_email {
        assert_eq!(user_settings.email, user.email);
    } else {
        assert!(user_settings.email.is_none());
    }

    assert_eq!(user_settings.settings.id, user.settings.id);
    assert_eq!(user_settings.settings.user_id, user.id);
    assert_eq!(user_settings.settings.display_email, user.settings.display_email);
    assert_eq!(user_settings.settings.posts_per_page, user.settings.posts_per_page);

    user_settings.settings.posts_per_page = 30;
    user_settings.settings.display_email = true;

    user_repository.edit_ws(&user_settings.settings, &mut session)?;

    let user_settings_2 = user_repository.get_user_settings_ws(&user.id, &session)?;

    assert_eq!(user_settings_2.email, user.email);
    assert_eq!(user_settings_2.settings.display_email, user_settings.settings.display_email);
    assert_eq!(user_settings_2.settings.posts_per_page, user_settings.settings.posts_per_page);

    let code = uuid::Uuid::new_v4().to_string();

    session_repository.create_ws(&user_id, code.as_str(), &mut session)?;

    let user_id = session_repository.get_user_id_ws(code.as_str(), &session)?;

    assert_eq!(user_id, user.id);

    Ok(())
}

#[test]
fn example_scenario_like_and_unlike() {
    let users = User::new();
    let posts = Post::new();
    let likes = Like::new();
    let mut db = Database::new();

    let mut u = sample_user("U", "u@example.org", None);
    let refused = users.create_ws(&mut u, &mut db);
    assert_eq!(refused.unwrap_err().kind, ErrorKind::Validation);

    u.password = Some("test".to_owned());
    let id = users.create_ws(&mut u, &mut db).unwrap();
    assert!(!id.is_empty());
    assert_eq!(u.id, id);

    let p = models::Post {
        id: String::new(),
        title: "P".to_owned(),
        text: None,
        description: None,
        liked: false,
        author: Some(u),
    };
    let post_id = posts.create_ws(&p, &mut db).unwrap();
    assert!(posts.liked_list_ws(&id, &db).unwrap().is_empty());

    likes.create_ws(&id, &post_id, &mut db).unwrap();
    let liked = posts.liked_list_ws(&id, &db).unwrap();
    assert_eq!(liked.len(), 1);
    assert_eq!(liked[0].id, post_id);
    assert!(liked[0].liked);
    assert!(posts.get_ws(&post_id, Some(&id), &db).unwrap().liked);

    likes.delete_ws(&id, &post_id, &mut db).unwrap();
    assert!(posts.liked_list_ws(&id, &db).unwrap().is_empty());
    assert!(!posts.get_ws(&post_id, Some(&id), &db).unwrap().liked);
}

#[test]
fn empty_password_is_refused_and_nothing_stored() {
    let users = User::new();
    let mut db = Database::new();
    let mut u = sample_user("A", "a@example.org", Some(""));
    let err = users.create_ws(&mut u, &mut db).unwrap_err();
    assert_eq!(err.kind, ErrorKind::Validation);
    assert_eq!(err.message(), "Password should be non-empty");
    assert!(u.id.is_empty());
    assert!(db.users.is_empty());
    assert_eq!(db.next_id, 1);
}

#[test]
fn stored_password_is_its_md5_digest() {
    let users = User::new();
    let mut db = Database::new();
    let mut u = sample_user("A", "a@example.org", Some("test"));
    users.create_ws(&mut u, &mut db).unwrap();
    assert_eq!(db.users[0].password, "098f6bcd4621d373cade4e832627b4f6");
}

#[test]
fn identifiers_are_issued_in_order() {
    let users = User::new();
    let posts = Post::new();
    let mut db = Database::new();
    let mut a = sample_user("A", "a@example.org", Some("pw"));
    let mut b = sample_user("B", "b@example.org", Some("pw"));
    assert_eq!(users.create_ws(&mut a, &mut db).unwrap(), "1");
    assert_eq!(users.create_ws(&mut b, &mut db).unwrap(), "2");
    let p = models::Post {
        id: String::new(),
        title: "t".to_owned(),
        text: None,
        description: None,
        liked: false,
        author: None,
    };
    assert_eq!(posts.create_ws(&p, &mut db).unwrap(), "3");
    assert_eq!(a.settings.user_id, "1");
}

#[test]
fn wrong_password_and_unknown_email_are_not_found() {
    let users = User::new();
    let mut db = Database::new();
    let mut a = sample_user("A", "a@example.org", Some("secret"));
    users.create_ws(&mut a, &mut db).unwrap();
    assert_eq!(users.get_id_ws("a@example.org", "other", &db).unwrap_err().kind, ErrorKind::NotFound);
    assert_eq!(users.get_id_ws("b@example.org", "secret", &db).unwrap_err().kind, ErrorKind::NotFound);
    assert_eq!(users.get_id_ws("a@example.org", "secret", &db).unwrap(), a.id);
}

#[test]
fn unknown_user_settings_are_not_found() {
    let users = User::new();
    let db = Database::new();
    assert_eq!(users.get_user_settings_ws("7", &db).unwrap_err().kind, ErrorKind::NotFound);
}

#[test]
fn edit_then_read_settings() {
    let users = User::new();
    let mut db = Database::new();
    let mut a = sample_user("A", "a@example.org", Some("pw"));
    users.create_ws(&mut a, &mut db).unwrap();
    let before = users.get_user_settings_ws(&a.id, &db).unwrap();
    assert_eq!(before.settings.posts_per_page, 10);
    assert!(!before.settings.display_email);
    assert!(before.email.is_none());
    assert!(before.password.is_none());
    let s = models::Settings {
        id: String::new(),
        user_id: a.id.clone(),
        posts_per_page: 25,
        display_email: true,
    };
    users.edit_ws(&s, &mut db).unwrap();
    let after = users.get_user_settings_ws(&a.id, &db).unwrap();
    assert_eq!(after.settings.posts_per_page, 25);
    assert!(after.settings.display_email);
    assert_eq!(after.email, Some("a@example.org".to_owned()));
}

#[test]
fn post_author_email_hidden_even_when_displayed() {
    let users = User::new();
    let posts = Post::new();
    let mut db = Database::new();
    let mut a = sample_user("A", "a@example.org", Some("pw"));
    a.settings.display_email = true;
    users.create_ws(&mut a, &mut db).unwrap();
    let p = models::Post {
        id: String::new(),
        title: "t".to_owned(),
        text: Some("x".to_owned()),
        description: None,
        liked: false,
        author: Some(a),
    };
    let id = posts.create_ws(&p, &mut db).unwrap();
    let got = posts.get_ws(&id, None, &db).unwrap();
    let author = got.author.unwrap();
    assert!(author.email.is_none());
    assert!(author.password.is_none());
    assert_eq!(author.settings.posts_per_page, 10);
    for q in posts.list_ws(None, &db).unwrap() {
        assert!(q.author.unwrap().email.is_none());
    }
}

#[test]
fn no_viewer_never_likes() {
    let users = User::new();
    let posts = Post::new();
    let likes = Like::new();
    let mut db = Database::new();
    let mut a = sample_user("A", "a@example.org", Some("pw"));
    let uid = users.create_ws(&mut a, &mut db).unwrap();
    let p = models::Post {
        id: String::new(),
        title: "t".to_owned(),
        text: None,
        description: None,
        liked: false,
        author: None,
    };
    let pid = posts.create_ws(&p, &mut db).unwrap();
    likes.create_ws(&uid, &pid, &mut db).unwrap();
    let listed = posts.list_ws(None, &db).unwrap();
    assert_eq!(listed.len(), 1);
    assert!(!listed[0].liked);
    assert!(listed[0].author.is_none());
    assert!(posts.list_ws(Some(&uid), &db).unwrap()[0].liked);
}

#[test]
fn duplicate_likes_are_all_removed() {
    let users = User::new();
    let posts = Post::new();
    let likes = Like::new();
    let mut db = Database::new();
    let mut a = sample_user("A", "a@example.org", Some("pw"));
    let uid = users.create_ws(&mut a, &mut db).unwrap();
    let p = models::Post {
        id: String::new(),
        title: "t".to_owned(),
        text: None,
        description: None,
        liked: false,
        author: None,
    };
    let pid = posts.create_ws(&p, &mut db).unwrap();
    likes.create_ws(&uid, &pid, &mut db).unwrap();
    likes.create_ws(&uid, &pid, &mut db).unwrap();
    assert_eq!(db.likes.len(), 2);
    likes.delete_ws(&uid, &pid, &mut db).unwrap();
    assert!(db.likes.is_empty());
    assert!(!posts.get_ws(&pid, Some(&uid), &db).unwrap().liked);
}

#[test]
fn like_of_missing_post_or_user_is_refused() {
    let users = User::new();
    let likes = Like::new();
    let mut db = Database::new();
    let mut a = sample_user("A", "a@example.org", Some("pw"));
    let uid = users.create_ws(&mut a, &mut db).unwrap();
    assert_eq!(likes.create_ws(&uid, "99", &mut db).unwrap_err().kind, ErrorKind::Integrity);
    assert_eq!(likes.create_ws("99", "1", &mut db).unwrap_err().kind, ErrorKind::Integrity);
    assert!(db.likes.is_empty());
}

#[test]
fn missing_post_is_not_found() {
    let posts = Post::new();
    let db = Database::new();
    let err = posts.get_ws("1", None, &db).unwrap_err();
    assert_eq!(err.kind, ErrorKind::NotFound);
    assert_eq!(err.message(), "Post with this id not found");
}

#[test]
fn session_codes_name_one_user() {
    let users = User::new();
    let sessions = Session::new();
    let mut db = Database::new();
    let mut a = sample_user("A", "a@example.org", Some("pw"));
    let mut b = sample_user("B", "b@example.org", Some("pw"));
    let ida = users.create_ws(&mut a, &mut db).unwrap();
    let idb = users.create_ws(&mut b, &mut db).unwrap();
    sessions.create_ws(&ida, "code-1", &mut db).unwrap();
    sessions.create_ws(&ida, "code-1", &mut db).unwrap();
    assert_eq!(db.users[0].sessions.len(), 1);
    sessions.create_ws(&ida, "code-2", &mut db).unwrap();
    assert_eq!(sessions.get_user_id_ws("code-1", &db).unwrap(), ida);
    assert_eq!(sessions.get_user_id_ws("code-2", &db).unwrap(), ida);
    assert_eq!(sessions.create_ws(&idb, "code-1", &mut db).unwrap_err().kind, ErrorKind::Integrity);
    assert_eq!(sessions.create_ws("42", "code-3", &mut db).unwrap_err().kind, ErrorKind::NotFound);
    assert_eq!(sessions.get_user_id_ws("code-3", &db).unwrap_err().kind, ErrorKind::NotFound);
}

#[test]
fn malformed_ids_are_validation_failures() {
    let users = User::new();
    let posts = Post::new();
    let likes = Like::new();
    let sessions = Session::new();
    let mut db = Database::new();
    let mut a = sample_user("A", "a@example.org", Some("pw"));
    let uid = users.create_ws(&mut a, &mut db).unwrap();
    let p = models::Post {
        id: String::new(),
        title: "t".to_owned(),
        text: None,
        description: None,
        liked: false,
        author: None,
    };
    let pid = posts.create_ws(&p, &mut db).unwrap();

    let s = models::Settings {
        id: String::new(),
        user_id: "not-an-id".to_owned(),
        posts_per_page: 3,
        display_email: true,
    };
    assert_eq!(users.edit_ws(&s, &mut db).unwrap_err().kind, ErrorKind::Validation);
    assert_eq!(users.get_user_settings_ws(&uid, &db).unwrap().settings.posts_per_page, 10);

    for bad in ["", "x", "01", "+1", "-1", " 1"] {
        assert_eq!(posts.get_ws(bad, None, &db).unwrap_err().kind, ErrorKind::Validation);
        assert_eq!(users.get_user_settings_ws(bad, &db).unwrap_err().kind, ErrorKind::Validation);
        assert_eq!(sessions.create_ws(bad, "c", &mut db).unwrap_err().kind, ErrorKind::Validation);
        assert_eq!(likes.create_ws(bad, &pid, &mut db).unwrap_err().kind, ErrorKind::Validation);
        assert_eq!(likes.create_ws(&uid, bad, &mut db).unwrap_err().kind, ErrorKind::Validation);
        assert_eq!(likes.delete_ws(&uid, bad, &mut db).unwrap_err().kind, ErrorKind::Validation);
    }
    assert!(db.likes.is_empty());
    assert!(db.users[0].sessions.is_empty());
}

#[test]
fn edit_of_unknown_user_changes_nothing() {
    let users = User::new();
    let mut db = Database::new();
    let mut a = sample_user("A", "a@example.org", Some("pw"));
    let uid = users.create_ws(&mut a, &mut db).unwrap();
    let s = models::Settings {
        id: String::new(),
        user_id: "77".to_owned(),
        posts_per_page: 3,
        display_email: true,
    };
    users.edit_ws(&s, &mut db).unwrap();
    assert_eq!(users.get_user_settings_ws(&uid, &db).unwrap().settings.posts_per_page, 10);
}

#[test]
fn post_with_unknown_author_is_refused() {
    let posts = Post::new();
    let mut db = Database::new();
    let mut ghost_author = models::User::new();
    ghost_author.id = "9".to_owned();
    let p = models::Post {
        id: String::new(),
        title: "t".to_owned(),
        text: None,
        description: None,
        liked: false,
        author: Some(ghost_author),
    };
    assert_eq!(posts.create_ws(&p, &mut db).unwrap_err().kind, ErrorKind::Integrity);
    assert!(db.posts.is_empty());
    assert_eq!(db.next_id, 1);
}

#[test]
fn failed_lookups_do_not_reveal_why() {
    let users = User::new();
    let sessions = Session::new();
    let mut db = Database::new();
    let mut a = sample_user("A", "a@example.org", Some("secret"));
    users.create_ws(&mut a, &mut db).unwrap();
    let wrong_password = users.get_id_ws("a@example.org", "other", &db).unwrap_err();
    let unknown_email = users.get_id_ws("b@example.org", "secret", &db).unwrap_err();
    assert_eq!(wrong_password.message(), "User with this email and password doesn't exist");
    assert_eq!(unknown_email.message(), wrong_password.message());
    assert_eq!(
        sessions.get_user_id_ws("nope", &db).unwrap_err().message(),
        "User with this session code doesn't exist"
    );
}

#[test]
fn new_database_starts_empty_at_one() {
    let db = Database::new();
    assert!(db.users.is_empty());
    assert!(db.posts.is_empty());
    assert!(db.likes.is_empty());
    assert_eq!(db.next_id, 1);
}
