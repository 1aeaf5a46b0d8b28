use idle_watchdog::models::{
    find_string, Attribute, CreateDynamodbModel, CreateDynamodbModelRequest, User, UserError,
    UserField,
};
use idle_watchdog::settings::{
    set_address, set_dynamo_db_table_name, set_jwt_expiry, set_port, set_secret,
    set_shutdown_duration, shutdown_threshold_secs,
};

#[test]
fn fixed_settings() {
    assert_eq!(set_jwt_expiry(), 24);
    assert_eq!(set_shutdown_duration(), 300);
}

#[test]
fn table_name_follows_environment() {
    assert_eq!(set_dynamo_db_table_name("prod"), "artizans_prod");
    assert_eq!(set_dynamo_db_table_name(""), "artizans_");
}

#[test]
fn address_and_secret_defaults() {
    assert_eq!(set_address(None), "0.0.0.0");
    assert_eq!(set_address(Some("127.0.0.1")), "127.0.0.1");
    assert_eq!(set_secret(None), "JWT_SECRET_KEY");
    assert_eq!(set_secret(Some("s3")), "s3");
}

#[test]
fn port_parsing() {
    assert_eq!(set_port(None), Some(5050));
    assert_eq!(set_port(Some("8080")), Some(8080));
    assert_eq!(set_port(Some("65535")), Some(65535));
    assert_eq!(set_port(Some("65536")), None);
    assert_eq!(set_port(Some("abc")), None);
}

#[test]
fn shutdown_threshold_from_duration() {
    assert_eq!(shutdown_threshold_secs(300), Some(300));
    assert_eq!(shutdown_threshold_secs(60), None);
    assert_eq!(shutdown_threshold_secs(-5), None);
}

fn request() -> CreateDynamodbModelRequest {
    CreateDynamodbModelRequest {
        art_info: "painting".to_string(),
        name: "Sunrise".to_string(),
        author: "Ana".to_string(),
        art_unique_id: "u-1".to_string(),
    }
}

#[test]
fn art_record_from_request() {
    let m = CreateDynamodbModel::from_request(&request(), "abc-123");
    assert_eq!(m.partition_key, "painting#abc-123");
    assert_eq!(m.sort_key, "ARTINFO");
    assert_eq!(m.name, "Sunrise");
    assert_eq!(m.author, "Ana");
    assert_eq!(m.art_unique_id, "u-1");
}

#[test]
fn art_record_to_item() {
    let m = CreateDynamodbModel::from_request(&request(), "x");
    let item = m.to_item();
    let expected = vec![
        ("PK", "painting#x"),
        ("SK", "ARTINFO"),
        ("name", "Sunrise"),
        ("author", "Ana"),
        ("art_unique_id", "u-1"),
    ];
    assert_eq!(item.len(), 5);
    for (got, want) in item.iter().zip(expected.iter()) {
        assert_eq!(got.0, want.0);
        assert_eq!(got.1, want.1);
    }
}

fn s(v: &str) -> Attribute {
    Attribute::S(v.to_string())
}

fn user_item() -> Vec<(String, Attribute)> {
    vec![
        ("id".to_string(), s("USER#1")),
        ("name".to_string(), s("Ana")),
        ("email".to_string(), s("ana@example.com")),
        ("password".to_string(), s("hash")),
    ]
}

#[test]
fn user_from_complete_item() {
    let u = User::from_item(&user_item()).ok().unwrap();
    assert_eq!(u.id, "USER#1");
    assert_eq!(u.name, "Ana");
    assert_eq!(u.email, "ana@example.com");
    assert_eq!(u.password, "hash");
}

#[test]
fn user_missing_fields_in_order() {
    let mut item = user_item();
    item.remove(3);
    assert!(matches!(User::from_item(&item), Err(UserError::Missing(UserField::Password))));
    item.remove(2);
    assert!(matches!(User::from_item(&item), Err(UserError::Missing(UserField::Email))));
    item.remove(1);
    assert!(matches!(User::from_item(&item), Err(UserError::Missing(UserField::Name))));
    item.remove(0);
    assert!(matches!(User::from_item(&item), Err(UserError::Missing(UserField::Id))));
}

#[test]
fn user_field_of_other_kind_is_missing() {
    let mut item = user_item();
    item[1].1 = Attribute::Other;
    assert!(matches!(User::from_item(&item), Err(UserError::Missing(UserField::Name))));
}

#[test]
fn find_string_first_entry_decides() {
    let item = vec![("k".to_string(), s("one")), ("k".to_string(), s("two"))];
    assert_eq!(find_string(&item, &"k".to_string()), Some("one".to_string()));
    assert_eq!(find_string(&item, &"z".to_string()), None);
}
