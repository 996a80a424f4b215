use vstd::prelude::*;

verus! {

/// The body of an error response: a human-readable detail.
#[derive(Clone, Debug, PartialEq, Eq)]
pub struct AppError {
    pub detail: String,
}

impl AppError {
    /// An error body carrying `detail` as it is.
    pub fn new(detail: &str) -> (r: AppError)
        ensures
            r.detail@ == detail@,
    {
        AppError { detail: detail.to_owned() }
    }
}

/// The category of an error, for machines.
#[derive(Clone, Copy, Debug, PartialEq, Eq, Structural)]
pub enum ErrorKind {
    /// The request itself is wrong; retrying it cannot help.
    Validation,
    /// The caller could not be identified.
    Authentication,
    /// The caller is known but lacks the privilege.
    Authorization,
    /// The target user does not exist.
    NotFound,
    /// Concurrent writes kept winning; the whole request may be retried.
    Conflict,
    /// The identity service or the store failed or timed out.
    Dependency,
}

/// Every way in which a ledger operation can fail.
#[derive(Clone, Copy, Debug, PartialEq, Eq, Structural)]
pub enum LedgerError {
    /// The amount is zero or negative.
    InvalidAmount,
    /// Payer and payee are the same user.
    SelfTransfer,
    /// The balance to be debited is smaller than the amount.
    InsufficientFunds,
    /// The balance to be credited would leave the range of the counter.
    BalanceOverflow,
    /// The request carries no credential.
    MissingToken,
    /// The identity service did not accept the credential.
    Unauthenticated,
    /// The caller's account is not a banker's.
    Forbidden,
    /// The identity service knows no such user.
    NotFound,
    /// A version check kept failing.
    Conflict,
    /// A collaborator failed; nothing was written.
    Dependency,
}

pub open spec fn kind_of(e: LedgerError) -> ErrorKind {
    match e {
        LedgerError::InvalidAmount => ErrorKind::Validation,
        LedgerError::SelfTransfer => ErrorKind::Validation,
        LedgerError::InsufficientFunds => ErrorKind::Validation,
        LedgerError::BalanceOverflow => ErrorKind::Validation,
        LedgerError::MissingToken => ErrorKind::Authentication,
        LedgerError::Unauthenticated => ErrorKind::Authentication,
        LedgerError::Forbidden => ErrorKind::Authorization,
        LedgerError::NotFound => ErrorKind::NotFound,
        LedgerError::Conflict => ErrorKind::Conflict,
        LedgerError::Dependency => ErrorKind::Dependency,
    }
}

pub open spec fn kind_status(k: ErrorKind) -> u16 {
    match k {
        ErrorKind::Validation => 400,
        ErrorKind::Authentication => 401,
        ErrorKind::Authorization => 403,
        ErrorKind::NotFound => 404,
        ErrorKind::Conflict => 409,
        ErrorKind::Dependency => 500,
    }
}

pub open spec fn kind_name(k: ErrorKind) -> Seq<char> {
    match k {
        ErrorKind::Validation => "validation"@,
        ErrorKind::Authentication => "authentication"@,
        ErrorKind::Authorization => "authorization"@,
        ErrorKind::NotFound => "not_found"@,
        ErrorKind::Conflict => "conflict"@,
        ErrorKind::Dependency => "dependency"@,
    }
}

pub open spec fn detail_of(e: LedgerError) -> Seq<char> {
    match e {
        LedgerError::InvalidAmount => "Amount should be more than 0"@,
        LedgerError::SelfTransfer => "Cannot pay to yourself"@,
        LedgerError::InsufficientFunds => "Insufficient funds"@,
        LedgerError::BalanceOverflow => "Balance limit exceeded"@,
        LedgerError::MissingToken => "No token provided"@,
        LedgerError::Unauthenticated => "Authentication failed"@,
        LedgerError::Forbidden => "Missing banker role"@,
        LedgerError::NotFound => "User not found"@,
        LedgerError::Conflict => "Concurrent update, try again"@,
        LedgerError::Dependency => "Internal server error"@,
    }
}

impl ErrorKind {
    /// The HTTP status that reports an error of this kind.
    pub fn status_code(&self) -> (r: u16)
        ensures
            r == kind_status(*self),
    {
        match self {
            ErrorKind::Validation => 400,
            ErrorKind::Authentication => 401,
            ErrorKind::Authorization => 403,
            ErrorKind::NotFound => 404,
            ErrorKind::Conflict => 409,
            ErrorKind::Dependency => 500,
        }
    }

    /// The short name of the category.
    pub fn as_str(&self) -> (r: &'static str)
        ensures
            r@ == kind_name(*self),
    {
        match self {
            ErrorKind::Validation => "validation",
            ErrorKind::Authentication => "authentication",
            ErrorKind::Authorization => "authorization",
            ErrorKind::NotFound => "not_found",
            ErrorKind::Conflict => "conflict",
            ErrorKind::Dependency => "dependency",
        }
    }
}

impl LedgerError {
    /// The category of this error.
    pub fn kind(&self) -> (r: ErrorKind)
        ensures
            r == kind_of(*self),
    {
        match self {
            LedgerError::InvalidAmount => ErrorKind::Validation,
            LedgerError::SelfTransfer => ErrorKind::Validation,
            LedgerError::InsufficientFunds => ErrorKind::Validation,
            LedgerError::BalanceOverflow => ErrorKind::Validation,
            LedgerError::MissingToken => ErrorKind::Authentication,
            LedgerError::Unauthenticated => ErrorKind::Authentication,
            LedgerError::Forbidden => ErrorKind::Authorization,
            LedgerError::NotFound => ErrorKind::NotFound,
            LedgerError::Conflict => ErrorKind::Conflict,
            LedgerError::Dependency => ErrorKind::Dependency,
        }
    }

    /// The HTTP status that reports this error.
    pub fn status_code(&self) -> (r: u16)
        ensures
            r == kind_status(kind_of(*self)),
    {
        self.kind().status_code()
    }

    /// The human-readable detail; it never carries text of a collaborator.
    pub fn detail(&self) -> (r: &'static str)
        ensures
            r@ == detail_of(*self),
    {
        match self {
            LedgerError::InvalidAmount => "Amount should be more than 0",
            LedgerError::SelfTransfer => "Cannot pay to yourself",
            LedgerError::InsufficientFunds => "Insufficient funds",
            LedgerError::BalanceOverflow => "Balance limit exceeded",
            LedgerError::MissingToken => "No token provided",
            LedgerError::Unauthenticated => "Authentication failed",
            LedgerError::Forbidden => "Missing banker role",
            LedgerError::NotFound => "User not found",
            LedgerError::Conflict => "Concurrent update, try again",
            LedgerError::Dependency => "Internal server error",
        }
    }

    /// The response body that reports this error.
    pub fn to_app_error(&self) -> (r: AppError)
        ensures
            r.detail@ == detail_of(*self),
    {
        AppError::new(self.detail())
    }
}

} // verus!
