use vstd::prelude::*;
use vstd::utf8::encode_utf8;

use crate::config::RedmineConfig;
use crate::errors::{
    category_of_status, is_uuid_v7_text, opt_texts, reqwest_is_timeout, serde_json_error_text,
    status_of_category,
    transport_timed_out, ErrorCategory, ErrorContext, RedmineError,
};
use crate::json::{json_as_u64, json_get, json_parse, json_string_list, parse_json, JsonValue};
use crate::text::{decimal, decimal_string};
use crate::utils::query::pairs_view;

verus! {

// ---------------------------------------------------------------------------
// Query strings
// ---------------------------------------------------------------------------

/// Whether `application/x-www-form-urlencoded` keeps the byte `b` as it is:
/// `*`, `-`, `.`, `_`, digits and ASCII letters.
pub open spec fn form_keeps_byte(b: u8) -> bool {
    b == 42 || b == 45 || b == 46 || b == 95 || (48 <= b && b <= 57) || (65 <= b && b <= 90) || (97
        <= b && b <= 122)
}

/// The upper-case hexadecimal digit of `n` (0..=15).
pub open spec fn hex_upper(n: u8) -> char {
    if n < 10 {
        (48 + n) as char
    } else {
        (55 + n) as char
    }
}

/// How `application/x-www-form-urlencoded` writes the byte `b`: kept as it
/// is, `+` for a space, `%XX` in upper-case hexadecimal otherwise.
pub open spec fn form_encode_byte(b: u8) -> Seq<char> {
    if form_keeps_byte(b) {
        seq![b as char]
    } else if b == 32 {
        seq!['+']
    } else {
        seq!['%', hex_upper(b / 16), hex_upper(b % 16)]
    }
}

/// The form encoding of a sequence of bytes.
pub open spec fn form_encode_bytes(bytes: Seq<u8>) -> Seq<char>
    decreases bytes.len(),
{
    if bytes.len() == 0 {
        Seq::empty()
    } else {
        form_encode_bytes(bytes.drop_last()) + form_encode_byte(bytes.last())
    }
}

/// The form encoding of the UTF-8 bytes of `s`.
pub open spec fn form_encode(s: Seq<char>) -> Seq<char> {
    form_encode_bytes(encode_utf8(s))
}

/// Calls `url::form_urlencoded::byte_serialize` on the UTF-8 bytes of `s` and
/// collects the pieces. The crate's source maps each byte as
/// `form_encode_byte` says; that is what is claimed here.
#[verifier::external_body]
fn form_urlencode(s: &str) -> (r: String)
    ensures
        r@ == form_encode(s@),
{
    url::form_urlencoded::byte_serialize(s.as_bytes()).collect()
}

/// One `name=value` pair, both sides form-encoded.
pub open spec fn encode_pair(p: (Seq<char>, Seq<char>)) -> Seq<char> {
    form_encode(p.0) + "="@ + form_encode(p.1)
}

/// The form-encoded query string of `pairs`, joined by `&`.
pub open spec fn encode_query(pairs: Seq<(Seq<char>, Seq<char>)>) -> Seq<char>
    decreases pairs.len(),
{
    if pairs.len() == 0 {
        Seq::empty()
    } else if pairs.len() == 1 {
        encode_pair(pairs[0])
    } else {
        encode_query(pairs.drop_last()) + "&"@ + encode_pair(pairs.last())
    }
}

/// Writes `pairs` as a form-encoded query string.
pub fn encode_query_pairs(pairs: &Vec<(String, String)>) -> (r: String)
    ensures
        r@ == encode_query(pairs_view(pairs@)),
{
    let mut out = String::new();
    let n = pairs.len();
    let mut i: usize = 0;
    while i < n
        invariant
            n == pairs@.len(),
            i <= n,
            out@ == encode_query(pairs_view(pairs@).subrange(0, i as int)),
        decreases n - i,
    {
        let ghost before = pairs_view(pairs@).subrange(0, i as int);
        let ghost after = pairs_view(pairs@).subrange(0, i + 1);
        assert(after.drop_last() =~= before);
        if i > 0 {
            out.append("&");
        }
        let name = form_urlencode(pairs[i].0.as_str());
        let value = form_urlencode(pairs[i].1.as_str());
        out.append(name.as_str());
        out.append("=");
        out.append(value.as_str());
        proof {
            assert(after.last() == (pairs@[i as int].0@, pairs@[i as int].1@));
            if i == 0 {
                assert(after.len() == 1);
                assert(out@ =~= encode_pair(after[0]));
            } else {
                assert(out@ =~= encode_query(before) + "&"@ + encode_pair(after.last()));
            }
        }
        i = i + 1;
    }
    assert(pairs_view(pairs@).subrange(0, n as int) =~= pairs_view(pairs@));
    out
}

/// The URL of a request: base URL and path, then `?` and the encoded query
/// when there is one.
pub open spec fn request_url(
    base_url: Seq<char>,
    path: Seq<char>,
    query: Seq<(Seq<char>, Seq<char>)>,
) -> Seq<char> {
    if query.len() == 0 {
        base_url + path
    } else {
        base_url + path + "?"@ + encode_query(query)
    }
}

/// Builds the URL of a request to `path` with the query `query`.
pub fn build_url(config: &RedmineConfig, path: &str, query: &Vec<(String, String)>) -> (r: String)
    ensures
        r@ == request_url(config.base_url@, path@, pairs_view(query@)),
{
    let url = config.api_url(path);
    if query.len() == 0 {
        url
    } else {
        let encoded = encode_query_pairs(query);
        url.concat("?").concat(encoded.as_str())
    }
}

// ---------------------------------------------------------------------------
// Request headers
// ---------------------------------------------------------------------------

/// The authentication headers of a configuration: the API key, then the user
/// to impersonate, each where it is set.
pub open spec fn auth_header_pairs(config: RedmineConfig) -> Seq<(Seq<char>, Seq<char>)> {
    let key = match config.token {
        Some(t) => seq![("X-Redmine-API-Key"@, t@)],
        None => Seq::empty(),
    };
    let user = match config.switch_user {
        Some(u) => seq![("X-Redmine-Switch-User"@, u@)],
        None => Seq::empty(),
    };
    key + user
}

/// The API key is sent whenever a key is configured, and only then, as the
/// header `X-Redmine-API-Key`; the user to impersonate is sent whenever one is
/// configured, and only then, as `X-Redmine-Switch-User`; nothing else is
/// sent. Each header depends on its own setting alone.
pub proof fn lemma_auth_headers(config: RedmineConfig)
    ensures
        ({
            let h = auth_header_pairs(config);
            &&& forall|t: String|
                config.token == Some(t) ==> h.contains(("X-Redmine-API-Key"@, t@))
            &&& forall|u: String|
                config.switch_user == Some(u) ==> h.contains(("X-Redmine-Switch-User"@, u@))
            &&& config.token is None ==> forall|i: int|
                0 <= i < h.len() ==> (#[trigger] h[i]).0 != "X-Redmine-API-Key"@
            &&& config.switch_user is None ==> forall|i: int|
                0 <= i < h.len() ==> (#[trigger] h[i]).0 != "X-Redmine-Switch-User"@
            &&& forall|i: int|
                0 <= i < h.len() ==> (#[trigger] h[i]).0 == "X-Redmine-API-Key"@ || h[i].0
                    == "X-Redmine-Switch-User"@
            &&& h.len() == (if config.token is Some {
                1int
            } else {
                0
            }) + (if config.switch_user is Some {
                1int
            } else {
                0
            })
        }),
{
    reveal_strlit("X-Redmine-API-Key");
    reveal_strlit("X-Redmine-Switch-User");
    let h = auth_header_pairs(config);
    assert("X-Redmine-API-Key"@ != "X-Redmine-Switch-User"@) by {
        assert("X-Redmine-API-Key"@[10] != "X-Redmine-Switch-User"@[10]);
    }
    if let Some(t) = config.token {
        assert(h[0] == ("X-Redmine-API-Key"@, t@));
    }
    if let Some(u) = config.switch_user {
        assert(h[h.len() - 1] == ("X-Redmine-Switch-User"@, u@));
    }
}

/// The headers that authenticate a request, as name/value pairs.
pub fn auth_headers(config: &RedmineConfig) -> (r: Vec<(String, String)>)
    ensures
        pairs_view(r@) == auth_header_pairs(*config),
{
    let mut headers: Vec<(String, String)> = Vec::new();
    if let Some(token) = &config.token {
        headers.push(("X-Redmine-API-Key".to_owned(), token.clone()));
    }
    if let Some(user) = &config.switch_user {
        headers.push(("X-Redmine-Switch-User".to_owned(), user.clone()));
    }
    assert(pairs_view(headers@) =~= auth_header_pairs(*config));
    headers
}

// ---------------------------------------------------------------------------
// Responses
// ---------------------------------------------------------------------------

/// A context that names the operation and nothing else.
fn operation_context(operation: &str) -> (c: ErrorContext)
    ensures
        c.holds_only(Some(operation@), None, None, None),
{
    let mut c = ErrorContext::default();
    c.operation = Some(operation.to_owned());
    c
}

/// Whether `e` is a `Timeout` of the configured duration whose context names
/// the operation only.
pub open spec fn is_timeout_error(e: RedmineError, config: RedmineConfig, operation: Seq<char>) -> bool {
    match e {
        RedmineError::Timeout { duration, context } => {
            &&& duration == config.timeout
            &&& context.holds_only(Some(operation), None, None, None)
        },
        _ => false,
    }
}

/// The error for a request that could not be sent or answered: a `Timeout`
/// of the configured duration when the transport error is a timeout, the
/// transport error itself otherwise.
pub fn transport_error(config: &RedmineConfig, err: reqwest::Error, operation: &str) -> (e:
    RedmineError)
    ensures
        transport_timed_out(err) ==> is_timeout_error(e, *config, operation@),
        !transport_timed_out(err) ==> e == RedmineError::Http(err),
{
    if reqwest_is_timeout(&err) {
        RedmineError::Timeout {
            duration: config.timeout,
            context: Box::new(operation_context(operation)),
        }
    } else {
        RedmineError::Http(err)
    }
}

/// Whether an HTTP status code means success (2xx).
pub open spec fn is_success(status: u16) -> bool {
    200 <= status && status <= 299
}

/// The messages of the `errors` member of a parsed body, when it is a list of
/// strings.
pub open spec fn body_api_errors(parsed: Option<JsonValue>) -> Option<Seq<Seq<char>>> {
    match parsed {
        Some(v) => match json_get(v, "errors"@) {
            Some(e) => json_string_list(e),
            None => None,
        },
        None => None,
    }
}

/// The `retry_after` member of a parsed body, when it is a number that fits
/// in a `u64`.
pub open spec fn body_retry_after(parsed: Option<JsonValue>) -> Option<u64> {
    match parsed {
        Some(v) => match json_get(v, "retry_after"@) {
            Some(r) => json_as_u64(r),
            None => None,
        },
        None => None,
    }
}

/// The category of a failed response.
pub open spec fn failure_category(status: u16) -> ErrorCategory {
    match category_of_status(status) {
        Some(c) => c,
        None => ErrorCategory::InternalError,
    }
}

/// The message of a failed response: the first error the API reported, or a
/// message chosen by the category.
pub open spec fn failure_detail(status: u16, api_errors: Option<Seq<Seq<char>>>) -> Seq<char> {
    match api_errors {
        Some(e) if e.len() > 0 => e[0],
        _ => match failure_category(status) {
            ErrorCategory::RateLimited => "limite de taxa excedido"@,
            ErrorCategory::ImpersonationFailed => "impersonação inválida"@,
            _ => "erro HTTP "@ + decimal(status as nat),
        },
    }
}

/// The error that a failed response maps to, for a body `body` whose JSON
/// parse, if any, is `parsed`.
pub open spec fn is_failure_error(
    e: RedmineError,
    status: u16,
    body: Seq<char>,
    parsed: Option<JsonValue>,
    operation: Seq<char>,
) -> bool {
    let api_errors = body_api_errors(parsed);
    let category = failure_category(status);
    if category == ErrorCategory::RateLimited {
        match e {
            RedmineError::RateLimited { retry_after, context } => {
                &&& retry_after == body_retry_after(parsed)
                &&& context.holds_only(Some(operation), Some(status), api_errors, Some(body))
            },
            _ => false,
        }
    } else {
        match e {
            RedmineError::Api { category: c, status: s, detail, instance, context } => {
                &&& c == category
                &&& s == status
                &&& detail@ == failure_detail(status, api_errors)
                &&& is_uuid_v7_text(instance@)
                &&& context.holds_only(Some(operation), Some(status), api_errors, Some(body))
            },
            _ => false,
        }
    }
}

/// The error a failed response maps to carries the category of its status
/// (`InternalError` for a status without one), and, when the status has a
/// category of its own, that category reports the status back.
pub proof fn lemma_failure_category(
    e: RedmineError,
    status: u16,
    body: Seq<char>,
    parsed: Option<JsonValue>,
    operation: Seq<char>,
)
    requires
        is_failure_error(e, status, body, parsed, operation),
    ensures
        e.category_spec() == Some(failure_category(status)),
        category_of_status(status) is Some ==> status_of_category(e.category_spec()->0) == status,
        category_of_status(status) is None ==> e.category_spec() == Some(
            ErrorCategory::InternalError,
        ),
{
}

/// Maps a failed response to an error: its category comes from the status
/// (`InternalError` when none applies), its message from the `errors` list of
/// the body, parsed as JSON, when there is one; a 429 becomes `RateLimited`
/// with the body's `retry_after`.
pub fn map_error(status: u16, body: &str, operation: &str) -> (e: RedmineError)
    ensures
        is_failure_error(e, status, body@, json_parse(body@), operation@),
{
    let parsed_result = parse_json(body);
    let parsed: Option<&JsonValue> = match &parsed_result {
        Ok(v) => Some(v),
        Err(_) => None,
    };
    let ghost parsed_value = json_parse(body@);
    let category = match ErrorCategory::from_status(status) {
        Some(c) => c,
        None => ErrorCategory::InternalError,
    };
    let api_errors: Option<Vec<String>> = match parsed {
        Some(v) => match v.get("errors") {
            Some(e) => e.as_string_list(),
            None => None,
        },
        None => None,
    };
    assert(opt_texts(api_errors) == body_api_errors(parsed_value));
    let detail: String = match &api_errors {
        Some(list) if list.len() > 0 => list[0].clone(),
        _ => match category {
            ErrorCategory::RateLimited => "limite de taxa excedido".to_owned(),
            ErrorCategory::ImpersonationFailed => "impersonação inválida".to_owned(),
            _ => "erro HTTP ".to_owned().concat(decimal_string(status as u64).as_str()),
        },
    };
    let mut context = ErrorContext::default();
    context.operation = Some(operation.to_owned());
    context.http_status = Some(status);
    context.api_errors = api_errors;
    context.response_body = Some(body.to_owned());
    if category == ErrorCategory::RateLimited {
        let retry_after: Option<u64> = match parsed {
            Some(v) => match v.get("retry_after") {
                Some(r) => r.as_u64(),
                None => None,
            },
            None => None,
        };
        return RedmineError::RateLimited { retry_after, context: Box::new(context) };
    }
    RedmineError::api(category, status, detail, context)
}

/// Whether `e` is a `ParseError` from the API layer with this status,
/// message and context.
pub open spec fn is_parse_error(
    e: RedmineError,
    status: u16,
    detail: Seq<char>,
    operation: Seq<char>,
    http_status: Option<u16>,
    body: Option<Seq<char>>,
) -> bool {
    match e {
        RedmineError::Api { category, status: s, detail: d, instance, context } => {
            &&& category == ErrorCategory::ParseError
            &&& s == status
            &&& d@ == detail
            &&& is_uuid_v7_text(instance@)
            &&& context.holds_only(Some(operation), http_status, None, body)
        },
        _ => false,
    }
}

/// Checks the status of a response whose body is to be decoded: a 204 has no
/// body to decode, a failure maps to its error, a success gives the body back.
pub fn check_response(status: u16, body: String, operation: &str) -> (r: Result<
    String,
    RedmineError,
>)
    ensures
        status == 204 ==> (r matches Err(e) && is_parse_error(
            e,
            204,
            "resposta 204 sem corpo"@,
            operation@,
            Some(204u16),
            None,
        )),
        status != 204 && !is_success(status) ==> (r matches Err(e) && is_failure_error(
            e,
            status,
            body@,
            json_parse(body@),
            operation@,
        )),
        status != 204 && is_success(status) ==> (r matches Ok(b) && b@ == body@),
{
    if status == 204 {
        let mut context = operation_context(operation);
        context.http_status = Some(204);
        return Err(RedmineError::api(ErrorCategory::ParseError, 204, "resposta 204 sem corpo", context));
    }
    if !(200 <= status && status <= 299) {
        return Err(map_error(status, body.as_str(), operation));
    }
    Ok(body)
}

/// Checks the status of a response whose body is not needed: any success is
/// `Ok`, a failure maps to its error.
pub fn check_void_response(status: u16, body: &str, operation: &str) -> (r: Result<
    (),
    RedmineError,
>)
    ensures
        is_success(status) ==> r is Ok,
        !is_success(status) ==> (r matches Err(e) && is_failure_error(
            e,
            status,
            body@,
            json_parse(body@),
            operation@,
        )),
{
    if 200 <= status && status <= 299 {
        Ok(())
    } else {
        Err(map_error(status, body, operation))
    }
}

/// Whether `e` is the `ParseError` of a successful response with status
/// `status` whose body `body` is not JSON: the context names the operation,
/// the status and the body, and the message is the JSON reader's.
pub open spec fn is_decode_error(e: RedmineError, status: u16, body: Seq<char>, operation: Seq<
    char,
>) -> bool {
    match e {
        RedmineError::Api { category, status: s, instance, context, .. } => {
            &&& category == ErrorCategory::ParseError
            &&& s == status
            &&& is_uuid_v7_text(instance@)
            &&& context.holds_only(Some(operation), Some(status), None, Some(body))
        },
        _ => false,
    }
}

/// Reads the JSON document of a response: a 204 has no body to read, a
/// failure maps to its error, and the body of a success is parsed as JSON, a
/// `ParseError` when it is not JSON.
pub fn read_document(status: u16, body: String, operation: &str) -> (r: Result<
    JsonValue,
    RedmineError,
>)
    ensures
        status == 204 ==> (r matches Err(e) && is_parse_error(
            e,
            204,
            "resposta 204 sem corpo"@,
            operation@,
            Some(204u16),
            None,
        )),
        status != 204 && !is_success(status) ==> (r matches Err(e) && is_failure_error(
            e,
            status,
            body@,
            json_parse(body@),
            operation@,
        )),
        status != 204 && is_success(status) ==> match json_parse(body@) {
            Some(d) => r == Ok::<JsonValue, RedmineError>(d),
            None => r matches Err(e) && is_decode_error(e, status, body@, operation@),
        },
{
    let body = check_response(status, body, operation)?;
    match parse_json(body.as_str()) {
        Ok(d) => Ok(d),
        Err(err) => {
            let message = serde_json_error_text(&err);
            Err(decode_failure(status, message, body, operation))
        },
    }
}

/// The error for a successful response whose body could not be decoded:
/// a `ParseError` with the decoder's message, the status and the body.
pub fn decode_failure(status: u16, message: String, body: String, operation: &str) -> (e:
    RedmineError)
    ensures
        is_parse_error(e, status, message@, operation@, Some(status), Some(body@)),
{
    let mut context = operation_context(operation);
    context.http_status = Some(status);
    context.response_body = Some(body);
    RedmineError::api(ErrorCategory::ParseError, status, message, context)
}

/// The message for an envelope that lacks its member `key`.
pub open spec fn missing_field_message(key: Seq<char>) -> Seq<char> {
    "campo '"@ + key + "' não encontrado"@
}

/// The member `key` of a response envelope (such as `{"issue": {...}}`); a
/// `ParseError` with the given status when the envelope lacks it.
pub fn extract_field<'a>(envelope: &'a JsonValue, key: &str, status: u16, operation: &str) -> (r:
    Result<&'a JsonValue, RedmineError>)
    ensures
        match r {
            Ok(v) => json_get(*envelope, key@) == Some(*v),
            Err(e) => json_get(*envelope, key@) is None && is_parse_error(
                e,
                status,
                missing_field_message(key@),
                operation@,
                None,
                None,
            ),
        },
{
    match envelope.get(key) {
        Some(v) => Ok(v),
        None => {
            let message = "campo '".to_owned().concat(key).concat("' não encontrado");
            Err(RedmineError::api(ErrorCategory::ParseError, status, message, operation_context(operation)))
        },
    }
}

/// The total number of records of a page: its `total_count` when that is a
/// number that fits in a `u64`, taken modulo 2^32; 0 otherwise.
pub open spec fn page_total_of(page: JsonValue) -> u32 {
    match json_get(page, "total_count"@) {
        Some(v) => match json_as_u64(v) {
            Some(n) => n as u32,
            None => 0,
        },
        None => 0,
    }
}

/// The total of a page is its `total_count` itself whenever that is a number
/// that fits in a `u32` (taken modulo 2^32 when it is larger), and 0 when the
/// page has no numeric `total_count`.
pub proof fn lemma_page_total_is_total_count(page: JsonValue)
    ensures
        forall|v: JsonValue, n: u64|
            json_get(page, "total_count"@) == Some(v) && json_as_u64(v) == Some(n) && n
                <= u32::MAX ==> page_total_of(page) == n,
        forall|v: JsonValue, n: u64|
            json_get(page, "total_count"@) == Some(v) && json_as_u64(v) == Some(n)
                ==> page_total_of(page) == n % 0x1_0000_0000,
        json_get(page, "total_count"@) is None ==> page_total_of(page) == 0,
        forall|v: JsonValue|
            json_get(page, "total_count"@) == Some(v) && json_as_u64(v) is None
                ==> page_total_of(page) == 0,
{
    assert forall|n: u64| #[trigger] ((n as u32) as int) == n % 0x1_0000_0000 by {
        assert((n as u32) == n % 0x1_0000_0000) by (bit_vector);
    }
}

/// Reads the total number of records from a page.
pub fn page_total(page: &JsonValue) -> (t: u32)
    ensures
        t == page_total_of(*page),
{
    let n: u64 = match page.get("total_count") {
        Some(v) => match v.as_u64() {
            Some(n) => n,
            None => 0,
        },
        None => 0,
    };
    #[verifier::truncate]
    (n as u32)
}

// ---------------------------------------------------------------------------
// Paths
// ---------------------------------------------------------------------------

/// A segment of a resource path: a fixed name or a numeric identifier.
pub enum PathSegment {
    /// A name, such as `issues` or a wiki page title.
    Name(String),
    /// A numeric identifier, written in decimal.
    Id(u64),
}

/// The text of a path segment.
pub open spec fn segment_text(s: PathSegment) -> Seq<char> {
    match s {
        PathSegment::Name(n) => n@,
        PathSegment::Id(id) => decimal(id as nat),
    }
}

/// The parts joined by `/`.
pub open spec fn join_slashes(parts: Seq<Seq<char>>) -> Seq<char>
    decreases parts.len(),
{
    if parts.len() == 0 {
        Seq::empty()
    } else if parts.len() == 1 {
        parts[0]
    } else {
        join_slashes(parts.drop_last()) + "/"@ + parts.last()
    }
}

/// The JSON endpoint made of these parts: `/`, the parts joined by `/`,
/// `.json`.
pub open spec fn endpoint_path(parts: Seq<Seq<char>>) -> Seq<char> {
    "/"@ + join_slashes(parts) + ".json"@
}

/// The texts of a list of path segments.
pub open spec fn segment_texts(segments: Seq<PathSegment>) -> Seq<Seq<char>> {
    segments.map_values(|s: PathSegment| segment_text(s))
}

/// Builds the path of the JSON endpoint named by `segments`, such as
/// `/issues/123.json` for `issues` and `123`.
pub fn resource_path(segments: &Vec<PathSegment>) -> (r: String)
    ensures
        r@ == endpoint_path(segment_texts(segments@)),
{
    let ghost texts = segment_texts(segments@);
    let mut joined = String::new();
    let n = segments.len();
    let mut i: usize = 0;
    while i < n
        invariant
            n == segments@.len(),
            texts == segment_texts(segments@),
            i <= n,
            joined@ == join_slashes(texts.subrange(0, i as int)),
        decreases n - i,
    {
        let ghost before = texts.subrange(0, i as int);
        let ghost after = texts.subrange(0, i + 1);
        assert(after.drop_last() =~= before);
        if i > 0 {
            joined.append("/");
        }
        match &segments[i] {
            PathSegment::Name(name) => joined.append(name.as_str()),
            PathSegment::Id(id) => {
                let digits = decimal_string(*id);
                joined.append(digits.as_str());
            },
        }
        proof {
            assert(after.last() == segment_text(segments@[i as int]));
            if i == 0 {
                assert(joined@ =~= after[0]);
            } else {
                assert(joined@ =~= join_slashes(before) + "/"@ + after.last());
            }
        }
        i = i + 1;
    }
    assert(texts.subrange(0, n as int) =~= texts);
    "/".to_owned().concat(joined.as_str()).concat(".json")
}

/// The names joined by `,`.
pub open spec fn join_commas(names: Seq<Seq<char>>) -> Seq<char>
    decreases names.len(),
{
    if names.len() == 0 {
        Seq::empty()
    } else if names.len() == 1 {
        names[0]
    } else {
        join_commas(names.drop_last()) + ","@ + names.last()
    }
}

/// The total number of characters of the names.
pub open spec fn total_length(names: Seq<Seq<char>>) -> int
    decreases names.len(),
{
    if names.len() == 0 {
        0
    } else {
        total_length(names.drop_last()) + names.last().len()
    }
}

/// Joining names by commas: the names come one after the other, in order,
/// with one comma between each two; so adding a name to a non-empty list adds
/// a comma and that name at the end, and the text holds every character of
/// every name and one comma fewer than there are names.
pub proof fn lemma_join_commas(names: Seq<Seq<char>>, name: Seq<char>)
    ensures
        names.len() > 0 ==> join_commas(names.push(name)) == join_commas(names) + ","@ + name,
        join_commas(seq![name]) == name,
        join_commas(Seq::<Seq<char>>::empty()).len() == 0,
        names.len() > 0 ==> join_commas(names).len() == total_length(names) + names.len() - 1,
    decreases names.len(),
{
    reveal_strlit(",");
    assert(names.push(name).drop_last() =~= names);
    assert(seq![name].drop_last() =~= Seq::<Seq<char>>::empty());
    if names.len() == 1 {
        assert(names.drop_last() =~= Seq::<Seq<char>>::empty());
        assert(names.last() == names[0]);
        assert(total_length(names.drop_last()) == 0);
        assert(total_length(names) == names[0].len());
        assert(join_commas(names) == names[0]);
    } else if names.len() > 1 {
        let d = names.drop_last();
        lemma_join_commas(d, names.last());
        assert(join_commas(names) == join_commas(d) + ","@ + names.last());
        assert(","@.len() == 1);
        assert(join_commas(d).len() == total_length(d) + d.len() - 1);
        assert(total_length(names) == total_length(d) + names.last().len());
    } else {
        assert(total_length(names) == 0);
    }
}

/// The `include` query of a request for associated data: the names joined by
/// commas.
pub fn include_query(includes: &[&str]) -> (r: Vec<(String, String)>)
    ensures
        pairs_view(r@) == seq![("include"@, join_commas(includes@.map_values(|s: &str| s@)))],
{
    let ghost names = includes@.map_values(|s: &str| s@);
    let mut joined = String::new();
    let n = includes.len();
    let mut i: usize = 0;
    while i < n
        invariant
            n == includes@.len(),
            names == includes@.map_values(|s: &str| s@),
            i <= n,
            joined@ == join_commas(names.subrange(0, i as int)),
        decreases n - i,
    {
        let ghost before = names.subrange(0, i as int);
        let ghost after = names.subrange(0, i + 1);
        assert(after.drop_last() =~= before);
        if i > 0 {
            joined.append(",");
        }
        joined.append(includes[i]);
        proof {
            assert(after.last() == includes@[i as int]@);
            if i == 0 {
                assert(joined@ =~= after[0]);
            } else {
                assert(joined@ =~= join_commas(before) + ","@ + after.last());
            }
        }
        i = i + 1;
    }
    assert(names.subrange(0, n as int) =~= names);
    let mut r: Vec<(String, String)> = Vec::new();
    r.push(("include".to_owned(), joined));
    assert(pairs_view(r@) =~= seq![("include"@, join_commas(names))]);
    r
}

/// The query of a category deletion: `reassign_to_id` when given.
pub fn reassign_query(reassign_to_id: Option<u64>) -> (r: Vec<(String, String)>)
    ensures
        pairs_view(r@) == match reassign_to_id {
            Some(id) => seq![("reassign_to_id"@, decimal(id as nat))],
            None => Seq::empty(),
        },
{
    let mut r: Vec<(String, String)> = Vec::new();
    if let Some(id) = reassign_to_id {
        r.push(("reassign_to_id".to_owned(), decimal_string(id)));
    }
    assert(pairs_view(r@) =~= match reassign_to_id {
        Some(id) => seq![("reassign_to_id"@, decimal(id as nat))],
        None => Seq::empty(),
    });
    r
}

// ---------------------------------------------------------------------------
// Client construction
// ---------------------------------------------------------------------------

/// Checks a configuration before a client is made of it: its base URL must
/// not be empty.
pub fn check_client_config(config: &RedmineConfig) -> (r: Result<(), RedmineError>)
    ensures
        config.base_url@.len() == 0 ==> (r matches Err(RedmineError::Config(m)) && m@
            == "base_url não pode estar vazia"@),
        config.base_url@.len() > 0 ==> r is Ok,
{
    if config.base_url.as_str().is_empty() {
        Err(RedmineError::Config("base_url não pode estar vazia".to_owned()))
    } else {
        Ok(())
    }
}

/// The error for an HTTP client that could not be built, given the reason.
pub fn client_build_error(reason: &str) -> (e: RedmineError)
    ensures
        e matches RedmineError::Config(m) && m@ == "falha ao criar HTTP client: "@ + reason@,
{
    RedmineError::Config("falha ao criar HTTP client: ".to_owned().concat(reason))
}

} // verus!
