use idle_watchdog::auth::{
    bearer_token, claimed_user, error_message, invalid_token_response, login_user,
    prepare_registration, register_user, registered_response, token_response, user_response,
    LoginRequest, RegisterRequest,
};
use idle_watchdog::models::{Attribute, CreateDynamodbModel, CreateDynamodbModelRequest, User, UserError, UserField};
use idle_watchdog::settings::max_token_count;

fn alice() -> RegisterRequest {
    RegisterRequest {
        name: "Alice".to_string(),
        email: "alice@example.com".to_string(),
        password: "hello".to_string(),
    }
}

#[test]
fn registration_refused_for_existing_user() {
    let r = prepare_registration(&alice(), true, "abc");
    let e = r.err().unwrap();
    assert_eq!(e.status_code, 409);
    assert_eq!(e.body, "User already exists");
}

#[test]
fn registration_record_hashes_password() {
    let item = prepare_registration(&alice(), false, "abc").ok().unwrap();
    assert_eq!(item.len(), 4);
    assert_eq!(item[0], ("id".to_string(), "USER#abc".to_string()));
    assert_eq!(item[1], ("name".to_string(), "Alice".to_string()));
    assert_eq!(item[2], ("email".to_string(), "alice@example.com".to_string()));
    assert_eq!(item[3].0, "password");
    assert_eq!(
        item[3].1,
        "2cf24dba5fb0a30e26e83b2ac5b9e29e1b161e5c1fa7425e73043362938b9824"
    );
}

#[test]
fn registration_with_fresh_id() {
    let item = register_user(&alice(), false).ok().unwrap();
    assert!(item[0].1.starts_with("USER#"));
    assert_eq!(item[0].1.len(), 5 + 36);
    let other = register_user(&alice(), false).ok().unwrap();
    assert_ne!(item[0].1, other[0].1);
    assert_eq!(register_user(&alice(), true).err().unwrap().status_code, 409);
}

#[test]
fn art_record_with_fresh_id() {
    let req = CreateDynamodbModelRequest {
        art_info: "sculpture".to_string(),
        name: "N".to_string(),
        author: "A".to_string(),
        art_unique_id: "u".to_string(),
    };
    let m = CreateDynamodbModel::create(&req);
    assert!(m.partition_key.starts_with("sculpture#"));
    assert_eq!(m.partition_key.len(), "sculpture#".len() + 36);
    assert_eq!(m.sort_key, "ARTINFO");
}

#[test]
fn registered_body() {
    let r = registered_response(&alice());
    assert_eq!(r.status_code, 200);
    assert_eq!(r.body, "created user: Alice - alice@example.com");
}

fn stored_user() -> Vec<(String, Attribute)> {
    vec![
        ("id".to_string(), Attribute::S("USER#1".to_string())),
        ("name".to_string(), Attribute::S("Alice".to_string())),
        ("email".to_string(), Attribute::S("alice@example.com".to_string())),
        ("password".to_string(), Attribute::S("h".to_string())),
    ]
}

#[test]
fn login_outcomes() {
    let e = login_user(None).err().unwrap();
    assert_eq!(e.status_code, 404);
    assert_eq!(e.body, "User not found. Please check the email address.");

    let item = stored_user();
    let u: User = login_user(Some(&item)).ok().unwrap();
    assert_eq!(u.email, "alice@example.com");

    let mut broken = stored_user();
    broken.remove(0);
    let e = login_user(Some(&broken)).err().unwrap();
    assert_eq!(e.status_code, 500);
    assert_eq!(
        e.body,
        "Failed to parse user data: Missing id. This might be due to data corruption or schema mismatch."
    );
    let _ = LoginRequest { email: "a".to_string(), password: "b".to_string() };
}

#[test]
fn claimed_user_outcomes() {
    let e = claimed_user(None).err().unwrap();
    assert_eq!((e.status_code, e.body.as_str()), (404, "User not found"));
    let mut broken = stored_user();
    broken[2].1 = Attribute::Other;
    let e = claimed_user(Some(&broken)).err().unwrap();
    assert_eq!((e.status_code, e.body.as_str()), (500, "Missing email"));
    let u = claimed_user(Some(&stored_user())).ok().unwrap();
    let r = user_response(&u);
    assert_eq!(r.status_code, 200);
    assert_eq!(r.body, "{ 'name': 'Alice', 'email': 'alice@example.com'}");
}

#[test]
fn error_messages() {
    assert_eq!(error_message(UserError::Missing(UserField::Id)), "Missing id");
    assert_eq!(error_message(UserError::Missing(UserField::Name)), "Missing name");
    assert_eq!(error_message(UserError::Missing(UserField::Email)), "Missing email");
    assert_eq!(error_message(UserError::Missing(UserField::Password)), "Missing password");
}

#[test]
fn token_body() {
    let r = token_response("t.k.n");
    assert_eq!(r.status_code, 200);
    assert_eq!(r.body, "{'token': 't.k.n'}");
}

#[test]
fn bearer_header_parsing() {
    assert_eq!(bearer_token(None), None);
    assert_eq!(bearer_token(Some("Bearer abc.def")), Some("abc.def".to_string()));
    assert_eq!(bearer_token(Some("Basic abc")), None);
    assert_eq!(bearer_token(Some("bearer abc")), None);
    assert_eq!(bearer_token(Some("Bearer a Bearer b")), Some("a b".to_string()));
    let r = invalid_token_response();
    assert_eq!((r.status_code, r.body.as_str()), (400, "Invalid token"));
}

#[test]
fn token_budget() {
    assert_eq!(max_token_count(None), 200);
    assert_eq!(max_token_count(Some(50)), 50);
}
