//! From a decoded request to the response: which handler runs, with which
//! status it answers, and what becomes of the store.
//!
//! The transport matches method and path and decodes path, query and body.
//! Whatever it could not decode it hands over as `None`; such a request is
//! answered with 400 and never reaches the store.

use crate::clock::{is_utc_stamp, names_an_instant};
use crate::error::{ServiceError, StatusCode};
use crate::handlers::{
    create_user, delete_user, deleted_message, get_user, get_users, health_check, is_health,
    is_server_info, is_user_list, is_welcome, server_info, update_user, welcome,
    DeleteConfirmation, Health, QueryParams, ServerInfo, UserList, Welcome,
};
use crate::model::{
    after_create, after_delete, after_update, created, lookup, next_id, update_outcome,
};
use crate::store::UserStore;
use crate::user::{CreateUserRequest, User, UserView};
use vstd::prelude::*;

verus! {

/// A request, named by its route, with what was decoded for it.
#[derive(Debug)]
pub enum Request {
    /// `GET /`
    Welcome,
    /// `GET /health`
    HealthCheck,
    /// `GET /api/users`, with its query.
    GetUsers(Option<QueryParams>),
    /// `POST /api/users`, with its body.
    CreateUser(Option<CreateUserRequest>),
    /// `GET /api/users/{id}`, with the identifier in its path.
    GetUser(Option<u32>),
    /// `PUT /api/users/{id}`, with the identifier in its path and its body.
    UpdateUser(Option<u32>, Option<CreateUserRequest>),
    /// `DELETE /api/users/{id}`, with the identifier in its path.
    DeleteUser(Option<u32>),
    /// `GET /api/info`, with the version of the compiler that built the server.
    ServerInfo(String),
}

/// The body of a response. A failure has none.
#[derive(Debug)]
pub enum Body {
    Empty,
    Welcome(Welcome),
    Health(Health),
    Users(UserList),
    User(User),
    Deleted(DeleteConfirmation),
    Info(ServerInfo),
}

/// What is sent back.
#[derive(Debug)]
pub struct Response {
    pub status: StatusCode,
    pub body: Body,
}

/// Some part of `request` could not be decoded.
pub open spec fn malformed(request: Request) -> bool {
    match request {
        Request::GetUsers(query) => query is None,
        Request::CreateUser(body) => body is None,
        Request::GetUser(id) => id is None,
        Request::UpdateUser(id, body) => id is None || body is None,
        Request::DeleteUser(id) => id is None,
        _ => false,
    }
}

/// The failure that `request` meets in a store holding `users`, if any.
/// Decoding comes first: a malformed request fails as such whatever the store holds.
pub open spec fn failure(users: Map<u32, UserView>, request: Request) -> Option<ServiceError> {
    if malformed(request) {
        Some(ServiceError::MalformedInput)
    } else {
        match request {
            Request::GetUser(Some(id)) if !users.contains_key(id) => Some(ServiceError::NotFound),
            Request::UpdateUser(Some(id), _) if !users.contains_key(id) => Some(
                ServiceError::NotFound,
            ),
            Request::DeleteUser(Some(id)) if !users.contains_key(id) => Some(
                ServiceError::NotFound,
            ),
            _ => None,
        }
    }
}

/// The status that answers `request`: 201 for a record created, 200 for
/// every other success, and the status of the failure otherwise.
pub open spec fn status_of(users: Map<u32, UserView>, request: Request) -> StatusCode {
    match failure(users, request) {
        Some(e) => e.status(),
        None => if request is CreateUser {
            StatusCode::Created
        } else {
            StatusCode::Success
        },
    }
}

/// The store after `request` has been answered.
pub open spec fn store_after(users: Map<u32, UserView>, request: Request) -> Map<u32, UserView> {
    match request {
        Request::CreateUser(Some(body)) => after_create(users, body@),
        Request::UpdateUser(Some(id), Some(body)) => after_update(users, id, body@),
        Request::DeleteUser(Some(id)) => after_delete(users, id),
        _ => users,
    }
}

/// `body` is the body that answers `request` in `store`.
pub open spec fn body_of(store: UserStore, request: Request, body: Body) -> bool {
    if failure(store@, request) is Some {
        body is Empty
    } else {
        match request {
            Request::Welcome => body matches Body::Welcome(b) && is_welcome(b),
            Request::HealthCheck => body matches Body::Health(b) && is_health(b)
                && names_an_instant(b.timestamp@) && is_utc_stamp(b.timestamp@),
            Request::GetUsers(Some(params)) => body matches Body::Users(b) && is_user_list(
                store,
                params,
                b,
            ),
            Request::CreateUser(Some(fields)) => body matches Body::User(user) && user@ == created(
                store@,
                fields@,
            ),
            Request::GetUser(Some(id)) => body matches Body::User(user) && lookup(store@, id)
                == Ok::<UserView, ServiceError>(user@),
            Request::UpdateUser(Some(id), Some(fields)) => body matches Body::User(user)
                && update_outcome(store@, id, fields@) == Ok::<UserView, ServiceError>(user@),
            Request::DeleteUser(Some(id)) => body matches Body::Deleted(b) && b.message@
                == deleted_message(id),
            Request::ServerInfo(rust_version) => body matches Body::Info(b) && is_server_info(
                b,
                rust_version@,
            ),
            _ => false,
        }
    }
}

fn failed(status: StatusCode) -> (response: Response)
    ensures
        response.status == status,
        response.body is Empty,
{
    Response { status, body: Body::Empty }
}

/// Answers `request`. A request with a part that could not be decoded gets
/// 400 before the store is touched; an unknown identifier gets 404; neither
/// changes the store.
pub fn dispatch(store: &mut UserStore, request: Request) -> (response: Response)
    requires
        request matches Request::CreateUser(Some(_)) ==> next_id(old(store)@) <= u32::MAX,
    ensures
        response.status == status_of(old(store)@, request),
        body_of(*old(store), request, response.body),
        final(store)@ == store_after(old(store)@, request),
{
    match request {
        Request::Welcome => Response { status: StatusCode::Success, body: Body::Welcome(welcome()) },
        Request::HealthCheck => {
            let (status, body) = health_check();
            Response { status, body: Body::Health(body) }
        },
        Request::GetUsers(Some(params)) => Response {
            status: StatusCode::Success,
            body: Body::Users(get_users(params, store)),
        },
        Request::CreateUser(Some(payload)) => match create_user(store, payload) {
            Ok((status, user)) => Response { status, body: Body::User(user) },
            Err(status) => failed(status),
        },
        Request::GetUser(Some(id)) => match get_user(id, store) {
            Ok(user) => Response { status: StatusCode::Success, body: Body::User(user) },
            Err(status) => failed(status),
        },
        Request::UpdateUser(Some(id), Some(payload)) => match update_user(id, store, payload) {
            Ok(user) => Response { status: StatusCode::Success, body: Body::User(user) },
            Err(status) => failed(status),
        },
        Request::DeleteUser(Some(id)) => match delete_user(id, store) {
            Ok(body) => Response { status: StatusCode::Success, body: Body::Deleted(body) },
            Err(status) => failed(status),
        },
        Request::ServerInfo(rust_version) => Response {
            status: StatusCode::Success,
            body: Body::Info(server_info(rust_version)),
        },
        _ => failed(ServiceError::MalformedInput.status_code()),
    }
}

} // verus!
