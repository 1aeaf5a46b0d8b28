use vstd::prelude::*;

use crate::text::{append, fresh_unique_id};

verus! {

/// Sort key of every art record.
pub const ART_SORT_KEY: &'static str = "ARTINFO";

/// Separator between an art record's kind and its unique id in the partition key.
pub const KEY_SEPARATOR: &'static str = "#";

/// A stored attribute: a string, or a value of any other kind.
pub enum Attribute {
    S(String),
    Other,
}

/// A request to store an art record.
pub struct CreateDynamodbModelRequest {
    pub art_info: String,
    pub name: String,
    pub author: String,
    pub art_unique_id: String,
}

/// An art record as stored in the document table.
pub struct CreateDynamodbModel {
    pub partition_key: String,
    pub sort_key: String,
    pub name: String,
    pub author: String,
    pub art_unique_id: String,
}

impl CreateDynamodbModel {
    /// The stored attributes of the record, by name, all strings.
    pub open spec fn entries(&self) -> Seq<(Seq<char>, Seq<char>)> {
        seq![
            ("PK"@, self.partition_key@),
            ("SK"@, self.sort_key@),
            ("name"@, self.name@),
            ("author"@, self.author@),
            ("art_unique_id"@, self.art_unique_id@),
        ]
    }

    /// The record for `request`, keyed `<art_info>#<item_id>` under the art
    /// sort key, where `item_id` is a fresh unique id.
    pub fn from_request(request: &CreateDynamodbModelRequest, item_id: &str) -> (r: Self)
        ensures
            r.partition_key@ == request.art_info@ + KEY_SEPARATOR@ + item_id@,
            r.sort_key@ == ART_SORT_KEY@,
            r.name@ == request.name@,
            r.author@ == request.author@,
            r.art_unique_id@ == request.art_unique_id@,
    {
        let mut partition_key = request.art_info.clone();
        append(&mut partition_key, KEY_SEPARATOR);
        append(&mut partition_key, item_id);
        CreateDynamodbModel {
            partition_key,
            sort_key: ART_SORT_KEY.to_owned(),
            name: request.name.clone(),
            author: request.author.clone(),
            art_unique_id: request.art_unique_id.clone(),
        }
    }

    /// A new record for `request`, under a fresh random id of 36 characters.
    pub fn create(request: &CreateDynamodbModelRequest) -> (r: Self)
        ensures
            exists|id: Seq<char>|
                id.len() == 36 && #[trigger] (request.art_info@ + KEY_SEPARATOR@ + id)
                    == r.partition_key@,
            r.sort_key@ == ART_SORT_KEY@,
            r.name@ == request.name@,
            r.author@ == request.author@,
            r.art_unique_id@ == request.art_unique_id@,
    {
        let id = fresh_unique_id();
        Self::from_request(request, id.as_str())
    }

    /// The record as a list of (attribute name, string value) pairs.
    pub fn to_item(&self) -> (r: Vec<(String, String)>)
        ensures
            r@.len() == self.entries().len(),
            forall|i: int|
                0 <= i < r@.len() ==> (#[trigger] r@[i]).0@ == self.entries()[i].0 && r@[i].1@
                    == self.entries()[i].1,
    {
        proof {
            reveal_strlit("PK");
            reveal_strlit("SK");
            reveal_strlit("name");
            reveal_strlit("author");
            reveal_strlit("art_unique_id");
        }
        let mut item: Vec<(String, String)> = Vec::new();
        item.push(("PK".to_owned(), self.partition_key.clone()));
        item.push(("SK".to_owned(), self.sort_key.clone()));
        item.push(("name".to_owned(), self.name.clone()));
        item.push(("author".to_owned(), self.author.clone()));
        item.push(("art_unique_id".to_owned(), self.art_unique_id.clone()));
        item
    }
}

/// The string stored under `key` in `item`, searching from entry `i` on:
/// the first entry under `key` decides, and one that holds no string gives
/// `None`, as does a missing key.
pub open spec fn lookup_from(item: Seq<(String, Attribute)>, key: Seq<char>, i: int) -> Option<
    Seq<char>,
>
    decreases item.len() - i,
{
    if i < 0 || i >= item.len() {
        None
    } else if item[i].0@ == key {
        match item[i].1 {
            Attribute::S(v) => Some(v@),
            Attribute::Other => None,
        }
    } else {
        lookup_from(item, key, i + 1)
    }
}

/// The string stored under `key` in `item`, if any.
pub open spec fn lookup(item: Seq<(String, Attribute)>, key: Seq<char>) -> Option<Seq<char>> {
    lookup_from(item, key, 0)
}

/// The string stored under `key` in `item`, if any.
pub fn find_string(item: &Vec<(String, Attribute)>, key: &String) -> (r: Option<String>)
    ensures
        r matches Some(v) ==> lookup(item@, key@) == Some(v@),
        r is None ==> lookup(item@, key@) is None,
{
    let mut i: usize = 0;
    while i < item.len()
        invariant
            i <= item@.len(),
            lookup(item@, key@) == lookup_from(item@, key@, i as int),
        decreases item@.len() - i,
    {
        if item[i].0 == *key {
            return match &item[i].1 {
                Attribute::S(v) => Some(v.clone()),
                Attribute::Other => None,
            };
        }
        i = i + 1;
    }
    None
}

/// A field of a stored user.
#[derive(PartialEq, Eq, Structural, Clone, Copy, Debug)]
pub enum UserField {
    Id,
    Name,
    Email,
    Password,
}

/// A stored user whose record lacks a field, or holds it as no string.
#[derive(PartialEq, Eq, Structural, Clone, Copy, Debug)]
pub enum UserError {
    Missing(UserField),
}

/// A user as stored in the document table.
pub struct User {
    pub id: String,
    pub name: String,
    pub email: String,
    pub password: String,
}

/// The first field, in the order id, name, email, password, that `item`
/// lacks or holds as no string.
pub open spec fn user_error(item: Seq<(String, Attribute)>) -> Option<UserError> {
    if lookup(item, "id"@) is None {
        Some(UserError::Missing(UserField::Id))
    } else if lookup(item, "name"@) is None {
        Some(UserError::Missing(UserField::Name))
    } else if lookup(item, "email"@) is None {
        Some(UserError::Missing(UserField::Email))
    } else if lookup(item, "password"@) is None {
        Some(UserError::Missing(UserField::Password))
    } else {
        None
    }
}

impl User {
    /// Each field of the user is the string that `item` stores under its name.
    pub open spec fn read_from(&self, item: Seq<(String, Attribute)>) -> bool {
        &&& lookup(item, "id"@) == Some(self.id@)
        &&& lookup(item, "name"@) == Some(self.name@)
        &&& lookup(item, "email"@) == Some(self.email@)
        &&& lookup(item, "password"@) == Some(self.password@)
    }

    /// Reads a user from a stored record. Fields are checked in the order
    /// id, name, email, password; the first that is missing is reported.
    pub fn from_item(item: &Vec<(String, Attribute)>) -> (r: Result<User, UserError>)
        ensures
            match user_error(item@) {
                Some(e) => r == Err::<User, UserError>(e),
                None => r matches Ok(u) && u.read_from(item@),
            },
    {
        let id = match find_string(item, &"id".to_owned()) {
            Some(v) => v,
            None => return Err(UserError::Missing(UserField::Id)),
        };
        let name = match find_string(item, &"name".to_owned()) {
            Some(v) => v,
            None => return Err(UserError::Missing(UserField::Name)),
        };
        let email = match find_string(item, &"email".to_owned()) {
            Some(v) => v,
            None => return Err(UserError::Missing(UserField::Email)),
        };
        let password = match find_string(item, &"password".to_owned()) {
            Some(v) => v,
            None => return Err(UserError::Missing(UserField::Password)),
        };
        Ok(User { id, name, email, password })
    }
}

} // verus!
