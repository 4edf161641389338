//! The service's error kinds and how the HTTP layer surfaces them.

use crate::routing::RabbitMqControllerError;
use vstd::prelude::*;
use vstd::string::StringExecFns;

verus! {

/// Everything a request handler can fail with.
#[derive(Debug)]
pub enum AppError {
    /// The database refused or failed a query; the store's message.
    Sqlx(String),
    /// A looked-up row does not exist.
    EntityNotFound,
    /// A multipart upload could not be read; the reader's message.
    Multipart(String),
    /// A multipart field was missing; its name.
    MultipartMissing(String),
    /// A filesystem operation failed; the message.
    Io(String),
    /// The broker controller failed.
    RabbitMq(RabbitMqControllerError),
    /// An uploaded part was neither an image nor an archive; its media type.
    NotAnImage(String),
    /// No valid caller identity was presented.
    Unauthorized,
    /// A bearer token could not be verified; the verifier's message.
    JwtError(String),
    /// The caller does not own the project.
    Forbidden,
    /// An uploaded archive could not be read.
    InvalidZip,
    /// An internal task failed for no reportable reason.
    InternalError,
}

/// The HTTP status an error kind surfaces as.
pub open spec fn status_code_v(e: AppError) -> int {
    match e {
        AppError::Sqlx(_) => 500,
        AppError::Io(_) => 500,
        AppError::RabbitMq(_) => 500,
        AppError::InternalError => 500,
        AppError::EntityNotFound => 404,
        AppError::Multipart(_) => 400,
        AppError::MultipartMissing(_) => 400,
        AppError::NotAnImage(_) => 400,
        AppError::InvalidZip => 400,
        AppError::Unauthorized => 401,
        AppError::JwtError(_) => 401,
        AppError::Forbidden => 403,
    }
}

/// The body text an error kind surfaces with.
pub open spec fn error_body_v(e: AppError) -> Seq<char> {
    match e {
        AppError::Sqlx(_) => "Database error"@,
        AppError::EntityNotFound => "Entity not found"@,
        AppError::Multipart(m) => "Multipart error: "@ + m@,
        AppError::MultipartMissing(m) => "Missing multipart field: "@ + m@,
        AppError::Io(_) => "Internal IO error"@,
        AppError::RabbitMq(_) => "Internal controller error"@,
        AppError::NotAnImage(ct) => "Not an image: "@ + ct@,
        AppError::Unauthorized => "Unauthorized"@,
        AppError::JwtError(_) => "Invalid token"@,
        AppError::Forbidden => "Forbidden"@,
        AppError::InvalidZip => "Invalid zip"@,
        AppError::InternalError => "Internal server error"@,
    }
}

impl AppError {
    /// The HTTP status this error surfaces as: 500 for the store, the
    /// filesystem, the broker and internal faults; 404 for a missing row;
    /// 400 for upload validation; 401 for missing or invalid identity;
    /// 403 for an ownership refusal.
    pub fn status_code(&self) -> (r: u16)
        ensures
            r as int == status_code_v(*self),
    {
        match self {
            AppError::Sqlx(_) => 500,
            AppError::Io(_) => 500,
            AppError::RabbitMq(_) => 500,
            AppError::InternalError => 500,
            AppError::EntityNotFound => 404,
            AppError::Multipart(_) => 400,
            AppError::MultipartMissing(_) => 400,
            AppError::NotAnImage(_) => 400,
            AppError::InvalidZip => 400,
            AppError::Unauthorized => 401,
            AppError::JwtError(_) => 401,
            AppError::Forbidden => 403,
        }
    }

    /// The body text this error surfaces with, as `{"error": <text>}`.
    pub fn error_body(&self) -> (r: String)
        ensures
            r@ == error_body_v(*self),
    {
        match self {
            AppError::Sqlx(_) => String::from_str("Database error"),
            AppError::EntityNotFound => String::from_str("Entity not found"),
            AppError::Multipart(m) => {
                let mut out: Vec<char> = Vec::new();
                crate::json::append_lit(&mut out, "Multipart error: ");
                crate::json::append_lit(&mut out, m.as_str());
                crate::text::chars_to_string(&out)
            },
            AppError::MultipartMissing(m) => {
                let mut out: Vec<char> = Vec::new();
                crate::json::append_lit(&mut out, "Missing multipart field: ");
                crate::json::append_lit(&mut out, m.as_str());
                crate::text::chars_to_string(&out)
            },
            AppError::Io(_) => String::from_str("Internal IO error"),
            AppError::RabbitMq(_) => String::from_str("Internal controller error"),
            AppError::NotAnImage(ct) => {
                let mut out: Vec<char> = Vec::new();
                crate::json::append_lit(&mut out, "Not an image: ");
                crate::json::append_lit(&mut out, ct.as_str());
                crate::text::chars_to_string(&out)
            },
            AppError::Unauthorized => String::from_str("Unauthorized"),
            AppError::JwtError(_) => String::from_str("Invalid token"),
            AppError::Forbidden => String::from_str("Forbidden"),
            AppError::InvalidZip => String::from_str("Invalid zip"),
            AppError::InternalError => String::from_str("Internal server error"),
        }
    }
}

} // verus!
