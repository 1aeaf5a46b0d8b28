use vstd::prelude::*;

use crate::models::{user_error, Attribute, User, UserError, UserField};
use crate::text::{append, fresh_unique_id};

verus! {

/// Prefix of every user id; a fresh unique id follows.
pub const USER_ID_PREFIX: &'static str = "USER#";

/// Scheme that an `Authorization` header must start with to carry a token.
pub const BEARER_PREFIX: &'static str = "Bearer ";

/// A response of the service: a status code and a text body.
pub struct ApiResponse {
    pub status_code: u16,
    pub body: String,
}

impl ApiResponse {
    pub fn new(status_code: u16, body: String) -> (r: Self)
        ensures
            r.status_code == status_code,
            r.body == body,
    {
        ApiResponse { status_code, body }
    }
}

/// A request to register a user.
pub struct RegisterRequest {
    pub name: String,
    pub email: String,
    pub password: String,
}

/// A request to log in.
pub struct LoginRequest {
    pub email: String,
    pub password: String,
}

/// What `sha256::digest` makes of a text: its digest, in lowercase hex.
pub uninterp spec fn sha256_hex_of(s: Seq<char>) -> Seq<char>;

/// Relies on `sha256::digest`: the SHA-256 digest of the text's bytes,
/// hex-encoded, two digits for each of its 32 bytes.
#[verifier::external_body]
fn password_digest(s: &str) -> (r: String)
    ensures
        r@ == sha256_hex_of(s@),
        r@.len() == 64,
{
    sha256::digest(s)
}

/// Relies on `str::starts_with`: whether `prefix` is a prefix of `s`.
#[verifier::external_body]
fn starts_with(s: &str, prefix: &str) -> (r: bool)
    ensures
        r == (prefix@.len() <= s@.len() && s@.subrange(0, prefix@.len() as int) == prefix@),
{
    s.starts_with(prefix)
}

/// `s` with every occurrence of `pat` removed, matched from left to right
/// without overlap.
pub open spec fn without(s: Seq<char>, pat: Seq<char>) -> Seq<char>
    decreases s.len(),
{
    if pat.len() == 0 || s.len() == 0 {
        s
    } else if pat.len() <= s.len() && s.subrange(0, pat.len() as int) == pat {
        without(s.subrange(pat.len() as int, s.len() as int), pat)
    } else {
        seq![s[0]] + without(s.subrange(1, s.len() as int), pat)
    }
}

/// Relies on `str::replace` with an empty replacement: removes every match
/// of `pat`, left to right.
#[verifier::external_body]
fn remove_all(s: &str, pat: &str) -> (r: String)
    ensures
        r@ == without(s@, pat@),
{
    s.replace(pat, "")
}

/// The stored attributes of a new user, by name.
pub open spec fn user_entries(request: &RegisterRequest, user_id: Seq<char>) -> Seq<
    (Seq<char>, Seq<char>),
> {
    seq![
        ("id"@, USER_ID_PREFIX@ + user_id),
        ("name"@, request.name@),
        ("email"@, request.email@),
        ("password"@, sha256_hex_of(request.password@)),
    ]
}

/// The body of a successful registration.
pub open spec fn registered_body(request: &RegisterRequest) -> Seq<char> {
    "created user: "@ + request.name@ + " - "@ + request.email@
}

/// The registration of `request`: refused with 409 where a user with that
/// email is already stored; otherwise the record to store, keyed
/// `USER#<user_id>` with the password kept only as its digest.
pub fn prepare_registration(request: &RegisterRequest, already_registered: bool, user_id: &str) -> (r:
    Result<Vec<(String, String)>, ApiResponse>)
    ensures
        already_registered <==> r is Err,
        r matches Err(e) ==> e.status_code == 409 && e.body@ == "User already exists"@,
        r matches Ok(item) ==> {
            &&& item@.len() == user_entries(request, user_id@).len()
            &&& forall|i: int|
                0 <= i < item@.len() ==> (#[trigger] item@[i]).0@ == user_entries(
                    request,
                    user_id@,
                )[i].0 && item@[i].1@ == user_entries(request, user_id@)[i].1
        },
{
    if already_registered {
        proof {
            reveal_strlit("User already exists");
        }
        return Err(ApiResponse::new(409, "User already exists".to_owned()));
    }
    proof {
        reveal_strlit("id");
        reveal_strlit("name");
        reveal_strlit("email");
        reveal_strlit("password");
    }
    let mut id = USER_ID_PREFIX.to_owned();
    append(&mut id, user_id);
    let mut item: Vec<(String, String)> = Vec::new();
    item.push(("id".to_owned(), id));
    item.push(("name".to_owned(), request.name.clone()));
    item.push(("email".to_owned(), request.email.clone()));
    item.push(("password".to_owned(), password_digest(request.password.as_str())));
    Ok(item)
}

/// The registration of `request` under a fresh random user id of 36
/// characters: refused with 409 where a user with that email is already
/// stored, otherwise the record to store.
pub fn register_user(request: &RegisterRequest, already_registered: bool) -> (r: Result<
    Vec<(String, String)>,
    ApiResponse,
>)
    ensures
        already_registered <==> r is Err,
        r matches Err(e) ==> e.status_code == 409 && e.body@ == "User already exists"@,
        r matches Ok(item) ==> exists|id: Seq<char>|
            #![trigger user_entries(request, id)]
            id.len() == 36 && item@.len() == user_entries(request, id).len() && forall|i: int|
                0 <= i < item@.len() ==> (#[trigger] item@[i]).0@ == user_entries(request, id)[i].0
                    && item@[i].1@ == user_entries(request, id)[i].1,
{
    let id = fresh_unique_id();
    prepare_registration(request, already_registered, id.as_str())
}

/// The response to a registration whose record was stored.
pub fn registered_response(request: &RegisterRequest) -> (r: ApiResponse)
    ensures
        r.status_code == 200,
        r.body@ == registered_body(request),
{
    let mut body = "created user: ".to_owned();
    append(&mut body, request.name.as_str());
    append(&mut body, " - ");
    append(&mut body, request.email.as_str());
    ApiResponse::new(200, body)
}

/// The text of a user-record error.
pub open spec fn error_text(e: UserError) -> Seq<char> {
    match e {
        UserError::Missing(UserField::Id) => "Missing id"@,
        UserError::Missing(UserField::Name) => "Missing name"@,
        UserError::Missing(UserField::Email) => "Missing email"@,
        UserError::Missing(UserField::Password) => "Missing password"@,
    }
}

/// The text of a user-record error.
pub fn error_message(e: UserError) -> (r: String)
    ensures
        r@ == error_text(e),
{
    match e {
        UserError::Missing(UserField::Id) => "Missing id".to_owned(),
        UserError::Missing(UserField::Name) => "Missing name".to_owned(),
        UserError::Missing(UserField::Email) => "Missing email".to_owned(),
        UserError::Missing(UserField::Password) => "Missing password".to_owned(),
    }
}

/// The body of a login refused because the stored record is unreadable.
pub open spec fn corrupt_login_body(e: UserError) -> Seq<char> {
    "Failed to parse user data: "@ + error_text(e)
        + ". This might be due to data corruption or schema mismatch."@
}

/// The user a login is for, from the first record stored under its email:
/// 404 where there is none, 500 where that record is unreadable.
pub fn login_user(first: Option<&Vec<(String, Attribute)>>) -> (r: Result<User, ApiResponse>)
    ensures
        first is None ==> (r matches Err(e) && e.status_code == 404 && e.body@
            == "User not found. Please check the email address."@),
        first matches Some(item) ==> match user_error(item@) {
            None => r matches Ok(u) && u.read_from(item@),
            Some(ue) => r matches Err(e) && e.status_code == 500 && e.body@ == corrupt_login_body(
                ue,
            ),
        },
{
    match first {
        None => Err(
            ApiResponse::new(404, "User not found. Please check the email address.".to_owned()),
        ),
        Some(item) => match User::from_item(item) {
            Ok(u) => Ok(u),
            Err(ue) => {
                let mut body = "Failed to parse user data: ".to_owned();
                let text = error_message(ue);
                append(&mut body, text.as_str());
                append(&mut body, ". This might be due to data corruption or schema mismatch.");
                Err(ApiResponse::new(500, body))
            },
        },
    }
}

/// The user a token's holder is, from the first record stored under its id:
/// 404 where there is none, 500 with the record error where it is unreadable.
pub fn claimed_user(first: Option<&Vec<(String, Attribute)>>) -> (r: Result<User, ApiResponse>)
    ensures
        first is None ==> (r matches Err(e) && e.status_code == 404 && e.body@
            == "User not found"@),
        first matches Some(item) ==> match user_error(item@) {
            None => r matches Ok(u) && u.read_from(item@),
            Some(ue) => r matches Err(e) && e.status_code == 500 && e.body@ == error_text(ue),
        },
{
    match first {
        None => Err(ApiResponse::new(404, "User not found".to_owned())),
        Some(item) => match User::from_item(item) {
            Ok(u) => Ok(u),
            Err(ue) => Err(ApiResponse::new(500, error_message(ue))),
        },
    }
}

/// The response carrying a freshly issued token.
pub fn token_response(token: &str) -> (r: ApiResponse)
    ensures
        r.status_code == 200,
        r.body@ == "{'token': '"@ + token@ + "'}"@,
{
    let mut body = "{'token': '".to_owned();
    append(&mut body, token);
    append(&mut body, "'}");
    ApiResponse::new(200, body)
}

/// The response describing a user.
pub fn user_response(user: &User) -> (r: ApiResponse)
    ensures
        r.status_code == 200,
        r.body@ == "{ 'name': '"@ + user.name@ + "', 'email': '"@ + user.email@ + "'}"@,
{
    let mut body = "{ 'name': '".to_owned();
    append(&mut body, user.name.as_str());
    append(&mut body, "', 'email': '");
    append(&mut body, user.email.as_str());
    append(&mut body, "'}");
    ApiResponse::new(200, body)
}

/// The token an `Authorization` header carries: the header with every
/// `Bearer ` removed, where it starts with `Bearer `.
pub fn bearer_token(header: Option<&str>) -> (r: Option<String>)
    ensures
        header is None ==> r is None,
        header matches Some(h) ==> {
            let p = BEARER_PREFIX@;
            if p.len() <= h@.len() && h@.subrange(0, p.len() as int) == p {
                r matches Some(t) && t@ == without(h@, p)
            } else {
                r is None
            }
        },
{
    match header {
        None => None,
        Some(h) => if starts_with(h, BEARER_PREFIX) {
            Some(remove_all(h, BEARER_PREFIX))
        } else {
            None
        },
    }
}

/// The refusal of a logout whose request carries no bearer token.
pub fn invalid_token_response() -> (r: ApiResponse)
    ensures
        r.status_code == 400,
        r.body@ == "Invalid token"@,
{
    ApiResponse::new(400, "Invalid token".to_owned())
}

} // verus!
