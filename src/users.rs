use vstd::prelude::*;

use crate::responses::LedgerError;

verus! {

/// A user as the identity service describes it.
#[derive(Clone, Debug)]
pub struct User {
    pub id: i32,
    pub username: String,
    pub admin: bool,
}

/// The identity service's answer to a lookup by user identifier.
#[derive(Clone, Debug)]
pub enum GetUserResponse {
    Found(User),
    BadRequest,
    NotFound,
}

/// The identity service's answer to a lookup by bearer credential.
#[derive(Clone, Debug)]
pub enum GetSelfResponse {
    Authenticated(User),
    Unauthenticated,
}

/// The lookup answer that an HTTP reply with `status` stands for, where
/// `user` is the decoded body of the reply (when it could be decoded).
pub open spec fn user_response_of(status: u16, user: Option<User>) -> Option<GetUserResponse> {
    if status == 200 {
        match user {
            Some(u) => Some(GetUserResponse::Found(u)),
            None => None,
        }
    } else if status == 400 {
        Some(GetUserResponse::BadRequest)
    } else if status == 404 {
        Some(GetUserResponse::NotFound)
    } else {
        None
    }
}

/// The credential-lookup answer that an HTTP reply with `status` stands for.
pub open spec fn self_response_of(status: u16, user: Option<User>) -> Option<GetSelfResponse> {
    if status == 200 {
        match user {
            Some(u) => Some(GetSelfResponse::Authenticated(u)),
            None => None,
        }
    } else if status == 401 {
        Some(GetSelfResponse::Unauthenticated)
    } else {
        None
    }
}

/// Whether a lookup answer proves that the target user exists.
pub open spec fn target_outcome(resp: GetUserResponse) -> Result<(), LedgerError> {
    match resp {
        GetUserResponse::Found(_) => Ok(()),
        GetUserResponse::NotFound => Err(LedgerError::NotFound),
        GetUserResponse::BadRequest => Err(LedgerError::Dependency),
    }
}

impl GetUserResponse {
    /// Reads an HTTP reply of the identity service: 200 with a body is the
    /// user, 400 and 404 are their own answers, anything else is no answer.
    pub fn from_status(status: u16, user: Option<User>) -> (r: Option<GetUserResponse>)
        ensures
            r == user_response_of(status, user),
    {
        if status == 200 {
            match user {
                Some(u) => Some(GetUserResponse::Found(u)),
                None => None,
            }
        } else if status == 400 {
            Some(GetUserResponse::BadRequest)
        } else if status == 404 {
            Some(GetUserResponse::NotFound)
        } else {
            None
        }
    }

    /// `Ok` when the answer shows that the user exists; a missing user is
    /// `NotFound`, a refused lookup is a failure of the collaborator.
    pub fn require_found(&self) -> (r: Result<(), LedgerError>)
        ensures
            r == target_outcome(*self),
    {
        match self {
            GetUserResponse::Found(_) => Ok(()),
            GetUserResponse::NotFound => Err(LedgerError::NotFound),
            GetUserResponse::BadRequest => Err(LedgerError::Dependency),
        }
    }
}

impl GetSelfResponse {
    /// Reads an HTTP reply of the identity service to a credential lookup:
    /// 200 with a body is the caller, 401 is a refusal, anything else is no
    /// answer.
    pub fn from_status(status: u16, user: Option<User>) -> (r: Option<GetSelfResponse>)
        ensures
            r == self_response_of(status, user),
    {
        if status == 200 {
            match user {
                Some(u) => Some(GetSelfResponse::Authenticated(u)),
                None => None,
            }
        } else if status == 401 {
            Some(GetSelfResponse::Unauthenticated)
        } else {
            None
        }
    }

    /// The authenticated caller, or `Unauthenticated`.
    pub fn into_caller(self) -> (r: Result<User, LedgerError>)
        ensures
            match self {
                GetSelfResponse::Authenticated(u) => r == Ok::<User, LedgerError>(u),
                GetSelfResponse::Unauthenticated => r == Err::<User, LedgerError>(
                    LedgerError::Unauthenticated,
                ),
            },
    {
        match self {
            GetSelfResponse::Authenticated(u) => Ok(u),
            GetSelfResponse::Unauthenticated => Err(LedgerError::Unauthenticated),
        }
    }
}

} // verus!
