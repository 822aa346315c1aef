use vstd::prelude::*;
use crate::text::{push_signed_decimal, push_str, signed_decimal, trunc_div};

verus! {

/// A row id returned by an insert.
pub struct Id {
    pub id: i32,
}

/// How long ago something happened, from the elapsed whole seconds: in days when at least
/// one day has passed, else in hours, else in minutes, else in seconds.
pub open spec fn since_text(elapsed_secs: i64) -> Seq<char> {
    let s = elapsed_secs as int;
    if trunc_div(s, 86400) > 0 {
        signed_decimal(trunc_div(s, 86400)) + " days ago"@
    } else if trunc_div(s, 3600) > 0 {
        signed_decimal(trunc_div(s, 3600)) + " hours ago"@
    } else if trunc_div(s, 60) > 0 {
        signed_decimal(trunc_div(s, 60)) + " minutes ago"@
    } else {
        signed_decimal(s) + " seconds ago"@
    }
}

/// How long ago something happened, from the elapsed whole seconds (`3 days ago`,
/// `5 hours ago`, `12 minutes ago`, `42 seconds ago`).
pub fn format_duration_since(elapsed_secs: i64) -> (res: String)
    ensures
        res@ == since_text(elapsed_secs),
{
    let mut out = String::new();
    if elapsed_secs >= 86400 {
        let d: i64 = elapsed_secs / 86400;
        push_signed_decimal(&mut out, d);
        push_str(&mut out, " days ago");
    } else if elapsed_secs >= 3600 {
        let h: i64 = elapsed_secs / 3600;
        push_signed_decimal(&mut out, h);
        push_str(&mut out, " hours ago");
    } else if elapsed_secs >= 60 {
        let m: i64 = elapsed_secs / 60;
        push_signed_decimal(&mut out, m);
        push_str(&mut out, " minutes ago");
    } else {
        push_signed_decimal(&mut out, elapsed_secs);
        push_str(&mut out, " seconds ago");
    }
    out
}

/// An error of the server, each kind carrying the message of its cause.
#[derive(Clone, Debug)]
pub enum AppError {
    NotFound,
    SqlxError(String),
    SiteMapError(String),
    RivenError(String),
    RavifError(String),
    ReqwestError(String),
    ParseIntError(String),
    SerdeJsonError(String),
    CustomError(String),
    ChronoError(String),
    StdIoError(String),
}

/// The HTTP status of an error: 404 when something was not found, else 500.
pub open spec fn status_of(e: AppError) -> u16 {
    match e {
        AppError::NotFound => 404,
        _ => 500,
    }
}

/// The message of an error: its kind, then the message of its cause.
pub open spec fn error_text(e: AppError) -> Seq<char> {
    match e {
        AppError::NotFound => "Not Found"@,
        AppError::SqlxError(m) => "SQL Error: "@ + m@,
        AppError::SiteMapError(m) => "Sitemap Error: "@ + m@,
        AppError::RivenError(m) => "Riven Error: "@ + m@,
        AppError::RavifError(m) => "Ravif: "@ + m@,
        AppError::ReqwestError(m) => "Reqwest Error: "@ + m@,
        AppError::ParseIntError(m) => "Parse Error: "@ + m@,
        AppError::SerdeJsonError(m) => "Serde json Error: "@ + m@,
        AppError::CustomError(m) => "Custom Error: "@ + m@,
        AppError::ChronoError(m) => "chrono Error: "@ + m@,
        AppError::StdIoError(m) => "Std Io Error: "@ + m@,
    }
}

fn prefixed(prefix: &str, m: &String) -> (res: String)
    ensures
        res@ == prefix@ + m@,
{
    let mut out = String::new();
    push_str(&mut out, prefix);
    push_str(&mut out, m.as_str());
    out
}

impl AppError {
    /// The HTTP status of the error: 404 for `NotFound`, 500 for every other kind.
    pub fn status_code(&self) -> (res: u16)
        ensures
            res == status_of(*self),
    {
        match self {
            AppError::NotFound => 404,
            _ => 500,
        }
    }

    /// The message of the error, such as `SQL Error: ...`.
    pub fn to_message(&self) -> (res: String)
        ensures
            res@ == error_text(*self),
    {
        match self {
            AppError::NotFound => String::from_str("Not Found"),
            AppError::SqlxError(m) => prefixed("SQL Error: ", m),
            AppError::SiteMapError(m) => prefixed("Sitemap Error: ", m),
            AppError::RivenError(m) => prefixed("Riven Error: ", m),
            AppError::RavifError(m) => prefixed("Ravif: ", m),
            AppError::ReqwestError(m) => prefixed("Reqwest Error: ", m),
            AppError::ParseIntError(m) => prefixed("Parse Error: ", m),
            AppError::SerdeJsonError(m) => prefixed("Serde json Error: ", m),
            AppError::CustomError(m) => prefixed("Custom Error: ", m),
            AppError::ChronoError(m) => prefixed("chrono Error: ", m),
            AppError::StdIoError(m) => prefixed("Std Io Error: ", m),
        }
    }
}

} // verus!
