//! What an HTTP request leaves in the activity log: its description and the
//! logger that records it, and where a request's state finds its database.

use vstd::prelude::*;

use rustbasic_core::serde_json::Value;
use rustbasic_core::sql::AnyPool;
use rustbasic_core::AppState;

use crate::json::{json_number, json_number_value, json_object, json_object_value, json_string, json_string_value};
use crate::service::{ActivityLogger, ActivityLoggerView};

verus! {

/// rustbasic_core's application state. Opaque here.
#[verifier::external_type_specification]
#[verifier::external_body]
pub struct ExAppState(AppState);

/// Application state from which the database pool can be taken.
pub trait HasDatabase {
    /// The database pool of this state.
    fn db(&self) -> AnyPool;
}

/// The database pool that `state` holds in its `db` field.
pub uninterp spec fn state_db(state: AppState) -> AnyPool;

/// A clone of the `db` pool of `state`, by rustbasic_core's derived
/// `AnyPool::clone`, which clones sqlx's pool handle: the clone shares the
/// state's pool. The contract claims that the result is a function of the
/// state alone, the pool it holds; what is inside the pool is opaque here.
#[verifier::external_body]
fn state_pool(state: &AppState) -> (pool: AnyPool)
    ensures
        pool == state_db(*state),
{
    state.db.clone()
}

impl HasDatabase for AppState {
    /// The pool this state holds.
    fn db(&self) -> (pool: AnyPool)
        ensures
            pool == state_db(*self),
    {
        state_pool(self)
    }
}

/// The log name of request activities.
pub const REQUEST_LOG_NAME: &'static str = "http_request";

/// The causer type of the user a request is made for.
pub const USER_CAUSER_TYPE: &'static str = "users";

/// The description of a request: its method and its path.
pub open spec fn spec_request_description(method: Seq<char>, uri: Seq<char>) -> Seq<char> {
    method + " "@ + uri
}

/// The properties of a request: method and path as strings, status and
/// duration in milliseconds as numbers.
pub open spec fn spec_request_properties(
    method: Seq<char>,
    uri: Seq<char>,
    status: u16,
    duration_ms: u64,
) -> Value {
    json_object_value(
        seq![
            ("method"@, json_string_value(method)),
            ("uri"@, json_string_value(uri)),
            ("status"@, json_number_value(status as u64)),
            ("duration_ms"@, json_number_value(duration_ms)),
        ],
    )
}

/// The logger of a request: on `db`, named `http_request`, with the
/// request's properties, caused by the user when one is known.
pub open spec fn spec_request_logger(
    db: AnyPool,
    method: Seq<char>,
    uri: Seq<char>,
    status: u16,
    duration_ms: u64,
    user_id: Option<i32>,
) -> ActivityLoggerView {
    ActivityLoggerView {
        db: db,
        log_name: REQUEST_LOG_NAME@,
        subject: None,
        causer: match user_id {
            Some(uid) => Some((USER_CAUSER_TYPE@, uid)),
            None => None,
        },
        properties: Some(spec_request_properties(method, uri, status, duration_ms)),
    }
}

/// The description of a request: `"{method} {uri}"`.
pub fn request_description(method: &str, uri: &str) -> (description: String)
    ensures
        description@ == spec_request_description(method@, uri@),
{
    let mut description = String::from_str(method);
    description.append(" ");
    description.append(uri);
    description
}

/// The properties of a request: an object with `method`, `uri`, `status`
/// and `duration_ms`.
pub fn request_properties(method: &str, uri: &str, status: u16, duration_ms: u64) -> (properties: Value)
    ensures
        properties == spec_request_properties(method@, uri@, status, duration_ms),
{
    let mut members: Vec<(String, Value)> = Vec::new();
    members.push((String::from_str("method"), json_string(String::from_str(method))));
    members.push((String::from_str("uri"), json_string(String::from_str(uri))));
    members.push((String::from_str("status"), json_number(status as u64)));
    members.push((String::from_str("duration_ms"), json_number(duration_ms)));
    assert(members@.map_values(|m: (String, Value)| (m.0@, m.1)) =~= seq![
        ("method"@, json_string_value(method@)),
        ("uri"@, json_string_value(uri@)),
        ("status"@, json_number_value(status as u64)),
        ("duration_ms"@, json_number_value(duration_ms)),
    ]);
    json_object(members)
}

/// The logger that records a request made with `method` to `uri`, answered
/// with `status` after `duration_ms` milliseconds, for the user `user_id`
/// when the session holds one; and the description it records.
pub fn request_activity(
    db: AnyPool,
    method: &str,
    uri: &str,
    status: u16,
    duration_ms: u64,
    user_id: Option<i32>,
) -> (activity: (ActivityLogger, String))
    ensures
        activity.0@ == spec_request_logger(db, method@, uri@, status, duration_ms, user_id),
        activity.1@ == spec_request_description(method@, uri@),
{
    let description = request_description(method, uri);
    let properties = request_properties(method, uri, status, duration_ms);
    let mut logger = ActivityLogger::new(db).use_log(REQUEST_LOG_NAME).with_properties(properties);
    if let Some(uid) = user_id {
        logger = logger.caused_by(USER_CAUSER_TYPE, uid);
    }
    (logger, description)
}

/// A request's activity is caused by the session's user exactly when the
/// session holds one, and that causer is of type `users`; it is never
/// performed on a subject, and always carries the request's properties.
pub proof fn lemma_request_user_tracking(
    db: AnyPool,
    method: Seq<char>,
    uri: Seq<char>,
    status: u16,
    duration_ms: u64,
    user_id: Option<i32>,
)
    ensures
        ({
            let logger = spec_request_logger(db, method, uri, status, duration_ms, user_id);
            &&& (logger.causer is Some <==> user_id is Some)
            &&& (user_id matches Some(uid) ==> logger.causer == Some((USER_CAUSER_TYPE@, uid)))
            &&& logger.subject is None
            &&& logger.properties == Some(spec_request_properties(method, uri, status, duration_ms))
        }),
{
}

/// A request's description is its method, one space, and its whole path:
/// the method comes first, the character after it is a space, everything
/// after that is the path, and nothing else is in it.
pub proof fn lemma_request_description_parts(method: Seq<char>, uri: Seq<char>)
    ensures
        ({
            let description = spec_request_description(method, uri);
            &&& description.len() == method.len() + 1 + uri.len()
            &&& description.take(method.len() as int) == method
            &&& description[method.len() as int] == ' '
            &&& description.skip((method.len() + 1) as int) == uri
        }),
{
    reveal_strlit(" ");
    let description = spec_request_description(method, uri);
    assert(description.take(method.len() as int) =~= method);
    assert(description.skip((method.len() + 1) as int) =~= uri);
}

} // verus!
