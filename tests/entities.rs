use std::collections::HashMap;

use hcc::{Authentication, Scrape, User};

const PASSWORD_HASH: &str = "$2a$04$UuTkLRZZ6QofpDOlMz32MuuxEHA43WOemOYHPz6.SjsVsyO1tDU96";

fn stored_user(encrypted_password: &str) -> User {
    User {
        id: 1,
        username: "user".to_string(),
        encrypted_password: encrypted_password.to_string(),
        created_at: 0,
    }
}

#[test]
fn right_password_authenticates() {
    let auth = Authentication { username: "user", password: "password" };
    let user = auth.authenticate(Some(stored_user(PASSWORD_HASH))).unwrap();
    assert_eq!("user", user.username);
    assert_eq!(1, user.id);
    assert_ne!(user.encrypted_password, "password");
}

#[test]
fn wrong_password_is_refused() {
    let auth = Authentication { username: "user", password: "wrong" };
    assert!(auth.authenticate(Some(stored_user(PASSWORD_HASH))).is_none());
}

#[test]
fn stored_plain_password_is_refused() {
    let auth = Authentication { username: "user", password: "password" };
    assert!(auth.authenticate(Some(stored_user("password"))).is_none());
}

#[test]
fn unknown_user_is_refused() {
    let auth = Authentication { username: "nobody", password: "password" };
    assert!(auth.authenticate(None).is_none());
}

fn scrape_of(id: i32, user_id: Option<i32>) -> Scrape {
    Scrape {
        id,
        user_id,
        url: format!("https://example.com/{}", id),
        headless: false,
        title: None,
        content: vec![],
        searchable_content: None,
        created_at: 0,
    }
}

fn user_named(id: i32, username: &str) -> User {
    User {
        id,
        username: username.to_string(),
        encrypted_password: PASSWORD_HASH.to_string(),
        created_at: 0,
    }
}

#[test]
fn search_pattern_lowercases_and_wraps() {
    assert_eq!("%example%", Scrape::search_pattern("Example"));
    assert_eq!("%%", Scrape::search_pattern(""));
    assert_eq!("%straße äb%", Scrape::search_pattern("STRAßE ÄB"));
}

#[test]
fn user_ids_skip_scrapes_without_user() {
    let scrapes = vec![scrape_of(1, Some(7)), scrape_of(2, None), scrape_of(3, Some(5)), scrape_of(4, Some(7))];
    assert_eq!(vec![7, 5, 7], Scrape::user_ids(&scrapes));
    assert!(Scrape::user_ids(&[]).is_empty());
}

#[test]
fn recorded_users_are_keyed_by_id() {
    let mut users = HashMap::new();
    users.insert(9, user_named(9, "kept"));
    users.insert(1, user_named(1, "replaced"));
    Scrape::record_users(&mut users, vec![user_named(1, "first"), user_named(2, "second"), user_named(1, "last")]);
    assert_eq!(3, users.len());
    assert_eq!("last", users[&1].username);
    assert_eq!("second", users[&2].username);
    assert_eq!("kept", users[&9].username);
}
