//! The request handlers. Each takes what was decoded from a request (path
//! identifier, query, body) and the store, and gives the status and body of
//! the response.

use crate::clock::{current_timestamp, is_utc_stamp, names_an_instant};
use crate::error::{ServiceError, StatusCode};
use crate::model::{
    after_create, after_delete, after_update, created, enumerates, lookup, next_id,
    update_outcome, window,
};
use crate::store::{views, UserStore};
use crate::text::{decimal, decimal_string};
use crate::user::{CreateUserRequest, User, UserView};
use vstd::prelude::*;

verus! {

/// The page size used where a request names none.
pub const DEFAULT_LIMIT: u32 = 10;

/// The number of records skipped where a request names none.
pub const DEFAULT_OFFSET: u32 = 0;

/// The query of a listing request. Either part may be absent.
#[derive(Clone, Copy, Debug)]
pub struct QueryParams {
    pub limit: Option<u32>,
    pub offset: Option<u32>,
}

impl QueryParams {
    /// The page size asked for, 10 where none was.
    pub open spec fn effective_limit(self) -> nat {
        match self.limit {
            Some(limit) => limit as nat,
            None => DEFAULT_LIMIT as nat,
        }
    }

    /// The number of records to skip, 0 where none was given.
    pub open spec fn effective_offset(self) -> nat {
        match self.offset {
            Some(offset) => offset as nat,
            None => DEFAULT_OFFSET as nat,
        }
    }
}

/// The body of a listing response: one page of records, the number of
/// records in the store, and the limit and offset that were applied.
#[derive(Debug)]
pub struct UserList {
    pub users: Vec<User>,
    pub total: usize,
    pub limit: usize,
    pub offset: usize,
}

/// The body that confirms a deletion.
#[derive(Debug)]
pub struct DeleteConfirmation {
    pub message: String,
}

/// The body served at the root path.
#[derive(Debug)]
pub struct Welcome {
    pub message: String,
    pub info: String,
    pub author: String,
}

/// The body of the liveness probe.
#[derive(Debug)]
pub struct Health {
    pub status: String,
    pub timestamp: String,
    pub uptime: String,
}

/// How the server compares itself with a Node.js one.
#[derive(Debug)]
pub struct Comparison {
    pub performance: String,
    pub memory_usage: String,
    pub type_safety: String,
    pub concurrency: String,
}

/// What the server says of itself.
#[derive(Debug)]
pub struct ServerInfo {
    pub server: String,
    pub framework: String,
    pub version: String,
    pub rust_version: String,
    pub features: Vec<String>,
    pub comparison_to_nodejs: Comparison,
}

/// How the outcome of a store operation is answered: a failure becomes its status.
pub open spec fn reply(outcome: Result<UserView, ServiceError>) -> Result<UserView, StatusCode> {
    match outcome {
        Ok(user) => Ok(user),
        Err(e) => Err(e.status()),
    }
}

/// A response that carries a record, as plain values.
pub open spec fn reply_view(response: Result<User, StatusCode>) -> Result<UserView, StatusCode> {
    match response {
        Ok(user) => Ok(user@),
        Err(status) => Err(status),
    }
}

/// The sentence that confirms the deletion of record `id`.
pub open spec fn deleted_message(id: u32) -> Seq<char> {
    "User "@ + decimal(id as nat) + " deleted successfully"@
}

/// `body` is the greeting served at the root path.
pub open spec fn is_welcome(body: Welcome) -> bool {
    &&& body.message@ == "🦀 Welcome to Rust Web Server!"@
    &&& body.info@ == "This is similar to Express.js but faster and safer"@
    &&& body.author@ == "DevZAKRI"@
}

/// `body` is a liveness body; its time stamp is left open.
pub open spec fn is_health(body: Health) -> bool {
    &&& body.status@ == "healthy"@
    &&& body.uptime@ == "🟢 Server is running"@
}

/// `body` is the page of `store` that `params` asks for.
pub open spec fn is_user_list(store: UserStore, params: QueryParams, body: UserList) -> bool {
    &&& body.limit == params.effective_limit()
    &&& body.offset == params.effective_offset()
    &&& body.total == store@.len()
    &&& views(body.users@) == window(
        store.listing(),
        params.effective_offset(),
        params.effective_limit(),
    )
    &&& body.users.len() == window(
        store.listing(),
        params.effective_offset(),
        params.effective_limit(),
    ).len()
    &&& body.users.len() <= body.limit
}

/// `body` is what the server says of itself when built by the compiler `rust_version`.
pub open spec fn is_server_info(body: ServerInfo, rust_version: Seq<char>) -> bool {
    &&& body.server@ == "Rust Web Server"@
    &&& body.framework@ == "Axum"@
    &&& body.version@ == "0.1.0"@
    &&& body.rust_version@ == rust_version
    &&& body.features@.len() == 5
    &&& body.features@[0]@ == "🔒 Memory Safety"@
    &&& body.features@[1]@ == "⚡ High Performance"@
    &&& body.features@[2]@ == "🔧 Type Safety"@
    &&& body.features@[3]@ == "🚀 Zero-cost Abstractions"@
    &&& body.features@[4]@ == "🌐 Async/Await Support"@
    &&& body.comparison_to_nodejs.performance@ == "2-3x faster than Node.js"@
    &&& body.comparison_to_nodejs.memory_usage@ == "Lower memory footprint"@
    &&& body.comparison_to_nodejs.type_safety@ == "Compile-time type checking"@
    &&& body.comparison_to_nodejs.concurrency@
        == "Built-in async/await without event loop overhead"@
}

/// `GET /`: a fixed greeting.
pub fn welcome() -> (body: Welcome)
    ensures
        is_welcome(body),
{
    Welcome {
        message: "🦀 Welcome to Rust Web Server!".to_owned(),
        info: "This is similar to Express.js but faster and safer".to_owned(),
        author: "DevZAKRI".to_owned(),
    }
}

/// The liveness body for a given time stamp.
pub fn health_report(timestamp: String) -> (body: Health)
    ensures
        is_health(body),
        body.timestamp@ == timestamp@,
{
    Health { status: "healthy".to_owned(), timestamp, uptime: "🟢 Server is running".to_owned() }
}

/// `GET /health`: always 200, with the liveness body stamped with the
/// current time in UTC.
pub fn health_check() -> (response: (StatusCode, Health))
    ensures
        response.0 == StatusCode::Success,
        is_health(response.1),
        names_an_instant(response.1.timestamp@),
        is_utc_stamp(response.1.timestamp@),
{
    (StatusCode::Success, health_report(current_timestamp()))
}

/// `GET /api/users`: one page of the store's listing. A missing limit is 10,
/// a missing offset 0; no upper bound is put on the limit.
pub fn get_users(params: QueryParams, store: &UserStore) -> (body: UserList)
    ensures
        is_user_list(*store, params, body),
        enumerates(store@, store.listing()),
{
    let limit: usize = match params.limit {
        Some(limit) => limit as usize,
        None => DEFAULT_LIMIT as usize,
    };
    let offset: usize = match params.offset {
        Some(offset) => offset as usize,
        None => DEFAULT_OFFSET as usize,
    };
    let (users, total) = store.list(limit, offset);
    UserList { users, total, limit, offset }
}

/// `GET /api/users/{id}`: the record, or 404 where the store has none under `id`.
pub fn get_user(id: u32, store: &UserStore) -> (response: Result<User, StatusCode>)
    ensures
        reply_view(response) == reply(lookup(store@, id)),
{
    match store.get(id) {
        Ok(user) => Ok(user),
        Err(e) => Err(e.status_code()),
    }
}

/// `POST /api/users`: files a new record and answers 201 with it.
pub fn create_user(store: &mut UserStore, payload: CreateUserRequest) -> (response: Result<
    (StatusCode, User),
    StatusCode,
>)
    requires
        next_id(old(store)@) <= u32::MAX,
    ensures
        response matches Ok((status, user)) && status == StatusCode::Created && user@ == created(
            old(store)@,
            payload@,
        ),
        final(store)@ == after_create(old(store)@, payload@),
{
    let user = store.create(payload.name, payload.email, payload.age);
    Ok((StatusCode::Created, user))
}

/// `PUT /api/users/{id}`: replaces the fields of the record and answers with
/// it, or 404 where the store has none under `id`, which is then unchanged.
pub fn update_user(id: u32, store: &mut UserStore, payload: CreateUserRequest) -> (response: Result<
    User,
    StatusCode,
>)
    ensures
        reply_view(response) == reply(update_outcome(old(store)@, id, payload@)),
        final(store)@ == after_update(old(store)@, id, payload@),
{
    match store.update(id, payload.name, payload.email, payload.age) {
        Ok(user) => Ok(user),
        Err(e) => Err(e.status_code()),
    }
}

/// `DELETE /api/users/{id}`: removes the record and confirms it in a
/// sentence, or 404 where the store has none under `id`.
pub fn delete_user(id: u32, store: &mut UserStore) -> (response: Result<
    DeleteConfirmation,
    StatusCode,
>)
    ensures
        response is Ok <==> old(store)@.contains_key(id),
        response matches Ok(body) ==> body.message@ == deleted_message(id),
        response matches Err(status) ==> status == StatusCode::NotFound,
        final(store)@ == after_delete(old(store)@, id),
{
    match store.delete(id) {
        Ok(()) => {
            let mut message = "User ".to_owned();
            message.append(decimal_string(id).as_str());
            message.append(" deleted successfully");
            Ok(DeleteConfirmation { message })
        },
        Err(e) => Err(e.status_code()),
    }
}

/// `GET /api/info`: what the server says of itself. The compiler's version
/// is the caller's to give.
pub fn server_info(rust_version: String) -> (body: ServerInfo)
    ensures
        is_server_info(body, rust_version@),
{
    let mut features: Vec<String> = Vec::new();
    features.push("🔒 Memory Safety".to_owned());
    features.push("⚡ High Performance".to_owned());
    features.push("🔧 Type Safety".to_owned());
    features.push("🚀 Zero-cost Abstractions".to_owned());
    features.push("🌐 Async/Await Support".to_owned());
    ServerInfo {
        server: "Rust Web Server".to_owned(),
        framework: "Axum".to_owned(),
        version: "0.1.0".to_owned(),
        rust_version,
        features,
        comparison_to_nodejs: Comparison {
            performance: "2-3x faster than Node.js".to_owned(),
            memory_usage: "Lower memory footprint".to_owned(),
            type_safety: "Compile-time type checking".to_owned(),
            concurrency: "Built-in async/await without event loop overhead".to_owned(),
        },
    }
}

} // verus!
