use std::collections::HashMap;
use std::time::Duration;

use vstd::prelude::*;

use crate::text::{decimal, decimal_string, IntoText};

verus! {

/// The transport error of the HTTP client, carried through unchanged.
#[verifier::external_type_specification]
#[verifier::external_body]
pub struct ExReqwestError(reqwest::Error);

/// The JSON (de)serialisation error, carried through unchanged.
#[verifier::external_type_specification]
#[verifier::external_body]
pub struct ExSerdeJsonError(serde_json::Error);

/// Semantic category of an error, derived from the HTTP status code.
#[derive(Debug, Clone, Copy, PartialEq, Eq, Structural)]
#[non_exhaustive]
pub enum ErrorCategory {
    /// 401: missing or invalid API key.
    AuthenticationFailed,
    /// 403: access to the resource denied.
    AuthorizationDenied,
    /// 404: resource not found.
    ResourceNotFound,
    /// 422: validation error in the submitted data.
    ValidationError,
    /// 409: conflict (for example a wiki version).
    Conflict,
    /// 429: request rate exceeded.
    RateLimited,
    /// 412: invalid impersonation.
    ImpersonationFailed,
    /// 413: upload larger than allowed.
    UploadTooLarge,
    /// 504: request timed out.
    Timeout,
    /// 503: network error or service unavailable.
    NetworkError,
    /// 500: invalid JSON response.
    ParseError,
    /// 500: uncategorised internal error.
    InternalError,
}

/// The category that an HTTP status code maps to, if any.
pub open spec fn category_of_status(status: u16) -> Option<ErrorCategory> {
    if status == 401 {
        Some(ErrorCategory::AuthenticationFailed)
    } else if status == 403 {
        Some(ErrorCategory::AuthorizationDenied)
    } else if status == 404 {
        Some(ErrorCategory::ResourceNotFound)
    } else if status == 409 {
        Some(ErrorCategory::Conflict)
    } else if status == 412 {
        Some(ErrorCategory::ImpersonationFailed)
    } else if status == 413 {
        Some(ErrorCategory::UploadTooLarge)
    } else if status == 422 {
        Some(ErrorCategory::ValidationError)
    } else if status == 429 {
        Some(ErrorCategory::RateLimited)
    } else if status == 504 {
        Some(ErrorCategory::Timeout)
    } else if status == 503 {
        Some(ErrorCategory::NetworkError)
    } else {
        None
    }
}

/// The HTTP status code associated with a category.
pub open spec fn status_of_category(c: ErrorCategory) -> u16 {
    match c {
        ErrorCategory::AuthenticationFailed => 401,
        ErrorCategory::AuthorizationDenied => 403,
        ErrorCategory::ResourceNotFound => 404,
        ErrorCategory::Conflict => 409,
        ErrorCategory::ImpersonationFailed => 412,
        ErrorCategory::UploadTooLarge => 413,
        ErrorCategory::ValidationError => 422,
        ErrorCategory::RateLimited => 429,
        ErrorCategory::Timeout => 504,
        ErrorCategory::NetworkError => 503,
        ErrorCategory::ParseError => 500,
        ErrorCategory::InternalError => 500,
    }
}

/// The kebab-case description of a category.
pub open spec fn description_of_category(c: ErrorCategory) -> Seq<char> {
    match c {
        ErrorCategory::AuthenticationFailed => "authentication-failed"@,
        ErrorCategory::AuthorizationDenied => "authorization-denied"@,
        ErrorCategory::ResourceNotFound => "resource-not-found"@,
        ErrorCategory::Conflict => "conflict"@,
        ErrorCategory::ImpersonationFailed => "impersonation-failed"@,
        ErrorCategory::UploadTooLarge => "upload-too-large"@,
        ErrorCategory::ValidationError => "validation-error"@,
        ErrorCategory::RateLimited => "rate-limited"@,
        ErrorCategory::Timeout => "timeout"@,
        ErrorCategory::NetworkError => "network-error"@,
        ErrorCategory::ParseError => "parse-error"@,
        ErrorCategory::InternalError => "internal-error"@,
    }
}

impl ErrorCategory {
    /// Converts an HTTP status code into a category; `None` for codes without
    /// a direct mapping (such as 200, 302 or 500).
    pub fn from_status(status: u16) -> (r: Option<Self>)
        ensures
            r == category_of_status(status),
    {
        match status {
            401 => Some(Self::AuthenticationFailed),
            403 => Some(Self::AuthorizationDenied),
            404 => Some(Self::ResourceNotFound),
            409 => Some(Self::Conflict),
            412 => Some(Self::ImpersonationFailed),
            413 => Some(Self::UploadTooLarge),
            422 => Some(Self::ValidationError),
            429 => Some(Self::RateLimited),
            504 => Some(Self::Timeout),
            503 => Some(Self::NetworkError),
            _ => None,
        }
    }

    /// The HTTP status code associated with the category.
    pub fn http_status(&self) -> (r: u16)
        ensures
            r == status_of_category(*self),
    {
        match self {
            Self::AuthenticationFailed => 401,
            Self::AuthorizationDenied => 403,
            Self::ResourceNotFound => 404,
            Self::Conflict => 409,
            Self::ImpersonationFailed => 412,
            Self::UploadTooLarge => 413,
            Self::ValidationError => 422,
            Self::RateLimited => 429,
            Self::Timeout => 504,
            Self::NetworkError => 503,
            Self::ParseError | Self::InternalError => 500,
        }
    }

    /// Short kebab-case description of the category.
    pub fn description(&self) -> (r: &'static str)
        ensures
            r@ == description_of_category(*self),
    {
        match self {
            Self::AuthenticationFailed => "authentication-failed",
            Self::AuthorizationDenied => "authorization-denied",
            Self::ResourceNotFound => "resource-not-found",
            Self::Conflict => "conflict",
            Self::ImpersonationFailed => "impersonation-failed",
            Self::UploadTooLarge => "upload-too-large",
            Self::ValidationError => "validation-error",
            Self::RateLimited => "rate-limited",
            Self::Timeout => "timeout",
            Self::NetworkError => "network-error",
            Self::ParseError => "parse-error",
            Self::InternalError => "internal-error",
        }
    }
}

/// Every category but the two that share status 500 is found again from its
/// own status code.
pub proof fn lemma_category_status_round_trip(c: ErrorCategory)
    requires
        c != ErrorCategory::ParseError,
        c != ErrorCategory::InternalError,
    ensures
        category_of_status(status_of_category(c)) == Some(c),
{
}

/// A status code that maps to a category is that category's own status code.
pub proof fn lemma_status_category_round_trip(status: u16)
    requires
        category_of_status(status) is Some,
    ensures
        status_of_category(category_of_status(status)->0) == status,
{
}

/// The status 500 maps to no category, though two categories report it.
pub proof fn lemma_status_500_unmapped()
    ensures
        category_of_status(500) is None,
        status_of_category(ErrorCategory::ParseError) == 500,
        status_of_category(ErrorCategory::InternalError) == 500,
{
}

/// Whether `s` is kebab-case: lower-case ASCII letters and hyphens only.
pub open spec fn is_kebab_case(s: Seq<char>) -> bool {
    forall|i: int| 0 <= i < s.len() ==> ('a' <= #[trigger] s[i] && s[i] <= 'z') || s[i] == '-'
}

/// Every description is kebab-case, and no two categories share one.
pub proof fn lemma_descriptions_kebab_and_distinct(a: ErrorCategory, b: ErrorCategory)
    ensures
        is_kebab_case(description_of_category(a)),
        a != b ==> description_of_category(a) != description_of_category(b),
{
    reveal_strlit("authentication-failed");
    reveal_strlit("authorization-denied");
    reveal_strlit("resource-not-found");
    reveal_strlit("conflict");
    reveal_strlit("impersonation-failed");
    reveal_strlit("upload-too-large");
    reveal_strlit("validation-error");
    reveal_strlit("rate-limited");
    reveal_strlit("timeout");
    reveal_strlit("network-error");
    reveal_strlit("parse-error");
    reveal_strlit("internal-error");
    let da = description_of_category(a);
    let db = description_of_category(b);
    if a != b && da == db {
        assert(da.len() == db.len());
        assert(da[0] == db[0]);
        assert(da[1] == db[1]);
        assert(da[2] == db[2]);
    }
}

/// Additional context attached to an error.
#[derive(Debug, Clone)]
pub struct ErrorContext {
    /// Name of the operation that raised the error (such as `"issues.list"`).
    pub operation: Option<String>,
    /// HTTP status code returned, where there is one.
    pub http_status: Option<u16>,
    /// Error messages reported by the API.
    pub api_errors: Option<Vec<String>>,
    /// Raw response body.
    pub response_body: Option<String>,
    /// Additional parameters.
    pub extra: HashMap<String, String>,
}

impl ErrorContext {
    /// The context holds nothing but, possibly, the fields named here.
    pub open spec fn holds_only(
        &self,
        operation: Option<Seq<char>>,
        http_status: Option<u16>,
        api_errors: Option<Seq<Seq<char>>>,
        response_body: Option<Seq<char>>,
    ) -> bool {
        &&& opt_text(self.operation) == operation
        &&& self.http_status == http_status
        &&& opt_texts(self.api_errors) == api_errors
        &&& opt_text(self.response_body) == response_body
        &&& self.extra@ == Map::<String, String>::empty()
    }
}

/// The characters of an optional string.
pub open spec fn opt_text(s: Option<String>) -> Option<Seq<char>> {
    match s {
        Some(t) => Some(t@),
        None => None,
    }
}

/// The characters of each string of an optional list.
pub open spec fn opt_texts(v: Option<Vec<String>>) -> Option<Seq<Seq<char>>> {
    match v {
        Some(l) => Some(l@.map_values(|t: String| t@)),
        None => None,
    }
}

impl Default for ErrorContext {
    fn default() -> (r: Self)
        ensures
            r.holds_only(None, None, None, None),
    {
        ErrorContext {
            operation: None,
            http_status: None,
            api_errors: None,
            response_body: None,
            extra: HashMap::new(),
        }
    }
}

/// Main error of the library.
#[derive(Debug)]
pub enum RedmineError {
    /// Error reported by the Redmine API.
    Api {
        /// Category of the error.
        category: ErrorCategory,
        /// HTTP status code.
        status: u16,
        /// Descriptive message.
        detail: String,
        /// UUID v7 that correlates the error.
        instance: String,
        /// Additional context.
        context: Box<ErrorContext>,
    },
    /// HTTP transport error.
    Http(reqwest::Error),
    /// Request rate exceeded.
    RateLimited {
        /// Suggested waiting time, in seconds.
        retry_after: Option<u64>,
        /// Additional context.
        context: Box<ErrorContext>,
    },
    /// Time limit exceeded.
    Timeout {
        /// The configured timeout.
        duration: Duration,
        /// Additional context.
        context: Box<ErrorContext>,
    },
    /// Invalid URL.
    Url(String),
    /// JSON serialisation or deserialisation error.
    Serialization(serde_json::Error),
    /// Configuration error.
    Config(String),
}

/// Whether `c` is a lower-case hexadecimal digit.
pub open spec fn is_lower_hex(c: char) -> bool {
    ('0' <= c && c <= '9') || ('a' <= c && c <= 'f')
}

/// Whether `s` is the hyphenated lower-case text of a version 7 UUID.
pub open spec fn is_uuid_v7_text(s: Seq<char>) -> bool {
    &&& s.len() == 36
    &&& forall|i: int|
        0 <= i < 36 ==> if i == 8 || i == 13 || i == 18 || i == 23 {
            #[trigger] s[i] == '-'
        } else {
            is_lower_hex(s[i])
        }
    &&& s[14] == '7'
}

/// Calls `uuid::Uuid::now_v7` and writes the result with `to_string`.
/// The value depends on the clock and on chance; what is stated is that the
/// text is a hyphenated lower-case UUID whose version digit is 7.
#[verifier::external_body]
fn new_instance_id() -> (s: String)
    ensures
        is_uuid_v7_text(s@),
{
    uuid::Uuid::now_v7().to_string()
}

/// A transport error becomes the `Http` variant.
impl From<reqwest::Error> for RedmineError {
    fn from(e: reqwest::Error) -> (r: Self) {
        RedmineError::Http(e)
    }
}

impl vstd::std_specs::convert::FromSpecImpl<reqwest::Error> for RedmineError {
    open spec fn obeys_from_spec() -> bool {
        true
    }

    open spec fn from_spec(e: reqwest::Error) -> Self {
        RedmineError::Http(e)
    }
}

/// A JSON error becomes the `Serialization` variant.
impl From<serde_json::Error> for RedmineError {
    fn from(e: serde_json::Error) -> (r: Self) {
        RedmineError::Serialization(e)
    }
}

impl vstd::std_specs::convert::FromSpecImpl<serde_json::Error> for RedmineError {
    open spec fn obeys_from_spec() -> bool {
        true
    }

    open spec fn from_spec(e: serde_json::Error) -> Self {
        RedmineError::Serialization(e)
    }
}

/// Name for what `reqwest::Error::is_timeout` returns: whether the error, or
/// one of its sources, is a timeout. It depends on the error's value alone.
pub uninterp spec fn transport_timed_out(e: reqwest::Error) -> bool;

/// Calls `reqwest::Error::is_timeout`; its answer is named by
/// `transport_timed_out`.
#[verifier::external_body]
pub(crate) fn reqwest_is_timeout(e: &reqwest::Error) -> (b: bool)
    ensures
        b == transport_timed_out(*e),
{
    e.is_timeout()
}

impl RedmineError {
    /// `self` is the `Api` variant with these fields and some UUID v7 text as
    /// its instance.
    pub open spec fn is_api(
        &self,
        category: ErrorCategory,
        status: u16,
        detail: Seq<char>,
        context: ErrorContext,
    ) -> bool {
        match self {
            RedmineError::Api { category: c, status: s, detail: d, instance: i, context: ctx } => {
                &&& *c == category
                &&& *s == status
                &&& d@ == detail
                &&& is_uuid_v7_text(i@)
                &&& **ctx == context
            },
            _ => false,
        }
    }

    /// Builds an `Api` error with a freshly generated UUID v7 for correlation.
    pub fn api<D: IntoText>(
        category: ErrorCategory,
        status: u16,
        detail: D,
        context: ErrorContext,
    ) -> (e: Self)
        ensures
            e.is_api(category, status, detail.text(), context),
    {
        RedmineError::Api {
            category,
            status,
            detail: detail.into_text(),
            instance: new_instance_id(),
            context: Box::new(context),
        }
    }

    /// The category of the error, where there is one: `Some` for `Api`,
    /// `RateLimited` and `Timeout`, and for a transport error (`Http`) that is
    /// a timeout; `None` for the variants that carry none.
    pub open spec fn category_spec(&self) -> Option<ErrorCategory> {
        match self {
            RedmineError::Api { category, .. } => Some(*category),
            RedmineError::RateLimited { .. } => Some(ErrorCategory::RateLimited),
            RedmineError::Timeout { .. } => Some(ErrorCategory::Timeout),
            RedmineError::Http(e) => if transport_timed_out(*e) {
                Some(ErrorCategory::Timeout)
            } else {
                None
            },
            _ => None,
        }
    }

    /// The category of the error, where there is one: `Some` for `Api`,
    /// `RateLimited` and `Timeout`, and for `Http` when it is a timeout.
    pub fn category(&self) -> (r: Option<ErrorCategory>)
        ensures
            r == self.category_spec(),
    {
        match self {
            RedmineError::Api { category, .. } => Some(*category),
            RedmineError::RateLimited { .. } => Some(ErrorCategory::RateLimited),
            RedmineError::Timeout { .. } => Some(ErrorCategory::Timeout),
            RedmineError::Http(e) => {
                if reqwest_is_timeout(e) {
                    Some(ErrorCategory::Timeout)
                } else {
                    None
                }
            },
            _ => None,
        }
    }
}

/// Name for what the `Display` implementation of `reqwest::Error` writes: the
/// error's kind, and the URL of the request when it has one. It depends on
/// the error's value alone.
pub uninterp spec fn transport_error_text(e: reqwest::Error) -> Seq<char>;

/// Calls the `Display` implementation of `reqwest::Error`; its text is named
/// by `transport_error_text`.
#[verifier::external_body]
fn reqwest_error_text(e: &reqwest::Error) -> (s: String)
    ensures
        s@ == transport_error_text(*e),
{
    format!("{}", e)
}

/// Calls the `Display` implementation of `serde_json::Error`. Nothing is
/// stated of the text: for an error that wraps an I/O error it is that error's
/// text, which for an error of the operating system comes from the C library
/// and depends on the locale, not on the value alone.
#[verifier::external_body]
pub(crate) fn serde_json_error_text(e: &serde_json::Error) -> String {
    format!("{}", e)
}

/// Name for what the `Debug` implementation of `std::time::Duration` writes
/// (such as `30s`). It depends on the duration alone.
pub uninterp spec fn duration_debug(d: Duration) -> Seq<char>;

/// Calls the `Debug` implementation of `std::time::Duration`; its text is
/// named by `duration_debug`.
#[verifier::external_body]
pub(crate) fn duration_debug_text(d: &Duration) -> (s: String)
    ensures
        s@ == duration_debug(*d),
{
    format!("{:?}", d)
}

/// How `Option<u64>` prints with `{:?}`.
pub open spec fn debug_opt_u64(v: Option<u64>) -> Seq<char> {
    match v {
        Some(n) => "Some("@ + decimal(n as nat) + ")"@,
        None => "None"@,
    }
}

impl RedmineError {
    /// The human-readable message of the error.
    pub fn message(&self) -> (m: String)
        ensures
            match self {
                RedmineError::Api { category, detail, instance, .. } => m@ == "["@
                    + description_of_category(*category) + "] "@ + detail@ + " (instance: "@
                    + instance@ + ")"@,
                RedmineError::RateLimited { retry_after, .. } => m@ == "rate limited (retry after: "@
                    + debug_opt_u64(*retry_after) + ")"@,
                RedmineError::Url(u) => m@ == "URL inválida: "@ + u@,
                RedmineError::Config(c) => m@ == "erro de configuração: "@ + c@,
                RedmineError::Http(e) => m@ == "erro HTTP: "@ + transport_error_text(*e),
                RedmineError::Serialization(_) => m@.len() >= "erro JSON: "@.len() && m@.subrange(
                    0,
                    "erro JSON: "@.len() as int,
                ) == "erro JSON: "@,
                RedmineError::Timeout { duration, .. } => m@ == "timeout após "@ + duration_debug(
                    *duration,
                ),
            },
    {
        match self {
            RedmineError::Api { category, detail, instance, .. } => "[".to_owned().concat(
                category.description(),
            ).concat("] ").concat(detail.as_str()).concat(" (instance: ").concat(
                instance.as_str(),
            ).concat(")"),
            RedmineError::Http(e) => {
                let t = reqwest_error_text(e);
                "erro HTTP: ".to_owned().concat(t.as_str())
            },
            RedmineError::RateLimited { retry_after, .. } => {
                let shown = match retry_after {
                    Some(n) => "Some(".to_owned().concat(decimal_string(*n).as_str()).concat(")"),
                    None => "None".to_owned(),
                };
                "rate limited (retry after: ".to_owned().concat(shown.as_str()).concat(")")
            },
            RedmineError::Timeout { duration, .. } => {
                let t = duration_debug_text(duration);
                "timeout após ".to_owned().concat(t.as_str())
            },
            RedmineError::Url(u) => "URL inválida: ".to_owned().concat(u.as_str()),
            RedmineError::Serialization(e) => {
                let t = serde_json_error_text(e);
                let m = "erro JSON: ".to_owned().concat(t.as_str());
                assert(m@.subrange(0, "erro JSON: "@.len() as int) =~= "erro JSON: "@);
                m
            },
            RedmineError::Config(c) => "erro de configuração: ".to_owned().concat(c.as_str()),
        }
    }
}

} // verus!
