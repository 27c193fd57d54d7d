//! Users: registration answers with a refresh and an access token.
pub mod jwt;
pub mod user_handlers;

use vstd::prelude::*;

verus! {

/// The body of a registration request.
#[derive(Clone, Debug, PartialEq, Eq)]
pub struct CreateUserRequest {
    pub username: String,
    pub password: String,
}

/// A registered user.
#[derive(Clone, Debug, PartialEq, Eq)]
pub struct User {
    pub id: i64,
    pub username: String,
}

/// The tokens handed out on registration.
#[derive(Clone, Debug, PartialEq, Eq)]
pub struct UserAuthTokens {
    pub refresh_token: String,
    pub access_token: String,
}

/// The answer to a registration: 201 with the tokens, 409, 400 or 500 with a
/// message.
#[derive(Clone, Debug, PartialEq, Eq)]
pub enum CreateUserResponse {
    Created(UserAuthTokens),
    Conflict(String),
    BadRequest(String),
    InternalError(String),
}

impl CreateUserResponse {
    /// The HTTP status of the answer.
    pub fn status(&self) -> (s: u16)
        ensures
            s == match self {
                CreateUserResponse::Created(_) => 201u16,
                CreateUserResponse::Conflict(_) => 409u16,
                CreateUserResponse::BadRequest(_) => 400u16,
                CreateUserResponse::InternalError(_) => 500u16,
            },
    {
        match self {
            CreateUserResponse::Created(_) => 201,
            CreateUserResponse::Conflict(_) => 409,
            CreateUserResponse::BadRequest(_) => 400,
            CreateUserResponse::InternalError(_) => 500,
        }
    }
}

/// The user endpoints (`POST /users/create`).
pub struct UserApi;

} // verus!
