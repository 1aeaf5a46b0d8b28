use vstd::prelude::*;

use crate::text::append;

verus! {

/// Listening address used when none is configured.
pub const DEFAULT_ADDRESS: &'static str = "0.0.0.0";

/// Listening port used when none is configured.
pub const DEFAULT_PORT: u16 = 5050;

/// Token signing secret used when none is configured.
pub const DEFAULT_SECRET: &'static str = "JWT_SECRET_KEY";

/// Seconds between two polls of the inactivity monitor.
pub const POLL_INTERVAL_SECS: u64 = 60;

/// Prefix of the document table's name; the deployment environment follows.
pub const TABLE_PREFIX: &'static str = "artizans_";

/// Token budget of a text-generation request that names none.
pub const REQUEST_MAX_TOKENS: u32 = 200;

/// What `str::parse::<u16>` makes of a text: the port it denotes, if any.
pub uninterp spec fn u16_of(s: Seq<char>) -> Option<u16>;

/// Relies on `str::parse::<u16>`: `Some` of the number a text denotes, `None`
/// where it denotes no `u16`.
#[verifier::external_body]
fn parse_u16(s: &str) -> (r: Option<u16>)
    ensures
        r == u16_of(s@),
{
    s.parse::<u16>().ok()
}

/// Hours for which an issued access token stays valid.
pub fn set_jwt_expiry() -> (r: i64)
    ensures
        r == 24,
{
    24
}

/// Seconds without a request after which the service shuts itself down.
pub fn set_shutdown_duration() -> (r: i64)
    ensures
        r == 300,
{
    300
}

/// The document table of a deployment environment: `artizans_<environment>`.
pub fn set_dynamo_db_table_name(environment: &str) -> (r: String)
    ensures
        r@ == TABLE_PREFIX@ + environment@,
{
    let mut name = TABLE_PREFIX.to_owned();
    append(&mut name, environment);
    name
}

/// The configured listening address, or the default one.
pub fn set_address(configured: Option<&str>) -> (r: String)
    ensures
        configured matches Some(a) ==> r@ == a@,
        configured is None ==> r@ == DEFAULT_ADDRESS@,
{
    match configured {
        Some(a) => a.to_owned(),
        None => DEFAULT_ADDRESS.to_owned(),
    }
}

/// The configured signing secret, or the default one.
pub fn set_secret(configured: Option<&str>) -> (r: String)
    ensures
        configured matches Some(s) ==> r@ == s@,
        configured is None ==> r@ == DEFAULT_SECRET@,
{
    match configured {
        Some(s) => s.to_owned(),
        None => DEFAULT_SECRET.to_owned(),
    }
}

/// The configured listening port, the default one where none is configured,
/// or `None` where the configured text is no port number.
pub fn set_port(configured: Option<&str>) -> (r: Option<u16>)
    ensures
        configured matches Some(s) ==> r == u16_of(s@),
        configured is None ==> r == Some(DEFAULT_PORT),
{
    match configured {
        Some(s) => parse_u16(s),
        None => Some(DEFAULT_PORT),
    }
}

/// The token budget of a text-generation request: the requested one, or
/// the default where none is requested.
pub fn max_token_count(requested: Option<u32>) -> (r: u32)
    ensures
        requested matches Some(n) ==> r == n,
        requested is None ==> r == REQUEST_MAX_TOKENS,
{
    match requested {
        Some(n) => n,
        None => REQUEST_MAX_TOKENS,
    }
}

/// The monitor's inactivity threshold in seconds: the configured shutdown
/// duration where it is positive and longer than a poll interval.
pub fn shutdown_threshold_secs(duration: i64) -> (r: Option<u64>)
    ensures
        duration > POLL_INTERVAL_SECS ==> r == Some(duration as u64),
        duration <= POLL_INTERVAL_SECS ==> r is None,
{
    if duration > POLL_INTERVAL_SECS as i64 {
        Some(duration as u64)
    } else {
        None
    }
}

} // verus!
