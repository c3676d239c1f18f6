//! Bounded responses: the closed set of shapes the listener may emit, the
//! fixed bodies it knows, and the head it writes for each.
use vstd::prelude::*;
use vstd::utf8::encode_utf8;
use crate::http_head::RequestReadError;

verus! {

pub const MAX_JSON_BODY_BYTES: usize = 128;
/// Derived from the typed envelope's own maxima: the largest error envelope is
/// 144 bytes and the largest result envelope is 504 bytes, so 512 bounds both.
pub const MAX_TYPED_JSON_BODY_BYTES: usize = 512;
pub const MAX_HTML_BODY_BYTES: usize = 16 * 1024;
pub const MAX_JAVASCRIPT_BODY_BYTES: usize = 256 * 1024;
pub const MAX_CSS_BODY_BYTES: usize = 64 * 1024;

/// Closed set of response shapes the restricted listener may emit.
///
/// The profile alone selects the media type, the security header block, and
/// the body bound.
#[derive(Clone, Copy, Debug, PartialEq, Eq, Structural)]
pub enum ResponseProfile {
    /// Compile-time bodies drawn from the fixed allowlist.
    Json,
    /// Envelopes the listener serializes itself.
    TypedJson,
    Html,
    JavaScript,
    Css,
}

pub open spec fn media_type_text(profile: ResponseProfile) -> Seq<char> {
    match profile {
        ResponseProfile::Json | ResponseProfile::TypedJson => "application/json; charset=utf-8"@,
        ResponseProfile::Html => "text/html; charset=utf-8"@,
        ResponseProfile::JavaScript => "text/javascript; charset=utf-8"@,
        ResponseProfile::Css => "text/css; charset=utf-8"@,
    }
}

pub open spec fn max_body_for(profile: ResponseProfile) -> usize {
    match profile {
        ResponseProfile::Json => MAX_JSON_BODY_BYTES,
        ResponseProfile::TypedJson => MAX_TYPED_JSON_BODY_BYTES,
        ResponseProfile::Html => MAX_HTML_BODY_BYTES,
        ResponseProfile::JavaScript => MAX_JAVASCRIPT_BODY_BYTES,
        ResponseProfile::Css => MAX_CSS_BODY_BYTES,
    }
}

pub open spec fn asset_security_headers_text() -> Seq<char> {
    "Content-Security-Policy: default-src 'none'; base-uri 'none'; object-src 'none'; frame-ancestors 'none'; form-action 'none'; script-src 'self'; style-src 'self'; connect-src 'self'\r\nX-Content-Type-Options: nosniff\r\nCache-Control: no-store\r\n"@
}

pub open spec fn security_headers_text(profile: ResponseProfile) -> Seq<char> {
    match profile {
        ResponseProfile::Json | ResponseProfile::TypedJson => ""@,
        _ => asset_security_headers_text(),
    }
}

/// The profile an observed module media type selects; the typed profile is never selected here.
pub open spec fn profile_for_media_type(value: Seq<u8>) -> Option<ResponseProfile> {
    if value == encode_utf8("application/json; charset=utf-8"@) {
        Some(ResponseProfile::Json)
    } else if value == encode_utf8("text/html; charset=utf-8"@) {
        Some(ResponseProfile::Html)
    } else if value == encode_utf8("text/javascript; charset=utf-8"@) {
        Some(ResponseProfile::JavaScript)
    } else if value == encode_utf8("text/css; charset=utf-8"@) {
        Some(ResponseProfile::Css)
    } else {
        None
    }
}

fn same_bytes(a: &[u8], b: &str) -> (r: bool)
    ensures
        r == (a@ == encode_utf8(b@)),
{
    crate::bytes::bytes_equal(a, b.as_bytes())
}

impl ResponseProfile {
    /// The media type this profile emits.
    pub fn media_type(self) -> (media: &'static str)
        ensures
            media@ == media_type_text(self),
    {
        match self {
            Self::Json | Self::TypedJson => "application/json; charset=utf-8",
            Self::Html => "text/html; charset=utf-8",
            Self::JavaScript => "text/javascript; charset=utf-8",
            Self::Css => "text/css; charset=utf-8",
        }
    }

    /// The largest body this profile may carry.
    pub fn max_body_bytes(self) -> (bound: usize)
        ensures
            bound == max_body_for(self),
    {
        match self {
            Self::Json => MAX_JSON_BODY_BYTES,
            Self::TypedJson => MAX_TYPED_JSON_BODY_BYTES,
            Self::Html => MAX_HTML_BODY_BYTES,
            Self::JavaScript => MAX_JAVASCRIPT_BODY_BYTES,
            Self::Css => MAX_CSS_BODY_BYTES,
        }
    }

    /// The security header block this profile emits.
    pub fn security_headers(self) -> (headers: &'static str)
        ensures
            headers@ == security_headers_text(self),
    {
        match self {
            Self::Json | Self::TypedJson => "",
            Self::Html | Self::JavaScript | Self::Css => "Content-Security-Policy: default-src 'none'; base-uri 'none'; object-src 'none'; frame-ancestors 'none'; form-action 'none'; script-src 'self'; style-src 'self'; connect-src 'self'\r\nX-Content-Type-Options: nosniff\r\nCache-Control: no-store\r\n",
        }
    }

    /// Maps an observed module media type to a profile.
    pub fn from_media_type(value: &[u8]) -> (profile: Option<Self>)
        ensures
            profile == profile_for_media_type(value@),
    {
        if same_bytes(value, "application/json; charset=utf-8") {
            Some(Self::Json)
        } else if same_bytes(value, "text/html; charset=utf-8") {
            Some(Self::Html)
        } else if same_bytes(value, "text/javascript; charset=utf-8") {
            Some(Self::JavaScript)
        } else if same_bytes(value, "text/css; charset=utf-8") {
            Some(Self::Css)
        } else {
            None
        }
    }
}

/// Closed set of methods the listener may advertise in an `Allow` header.
#[derive(Clone, Copy, Debug, PartialEq, Eq, Structural)]
pub enum AllowedMethod {
    Get,
    Put,
}

pub open spec fn allow_header_text(method: AllowedMethod) -> Seq<char> {
    match method {
        AllowedMethod::Get => "Allow: GET\r\n"@,
        AllowedMethod::Put => "Allow: PUT\r\n"@,
    }
}

pub open spec fn allowed_method_for(value: Seq<u8>) -> Option<AllowedMethod> {
    if value == encode_utf8("GET"@) {
        Some(AllowedMethod::Get)
    } else if value == encode_utf8("PUT"@) {
        Some(AllowedMethod::Put)
    } else {
        None
    }
}

impl AllowedMethod {
    /// The fixed header line advertising this method.
    pub fn allow_header(self) -> (line: &'static str)
        ensures
            line@ == allow_header_text(self),
    {
        match self {
            Self::Get => "Allow: GET\r\n",
            Self::Put => "Allow: PUT\r\n",
        }
    }

    /// Maps an observed `Allow` value to one of the fixed methods.
    pub fn from_header_value(value: &[u8]) -> (method: Option<Self>)
        ensures
            method == allowed_method_for(value@),
    {
        if same_bytes(value, "GET") {
            Some(Self::Get)
        } else if same_bytes(value, "PUT") {
            Some(Self::Put)
        } else {
            None
        }
    }
}

} // verus!

verus! {

/// Every fixed JSON body a frozen route may return.
pub open spec fn fixed_json_texts() -> Seq<Seq<char>> {
    seq![
        "{\"error\":\"already_initialized\"}"@,
        "{\"error\":\"backup_incompatible\"}"@,
        "{\"error\":\"backup_invalid\"}"@,
        "{\"error\":\"bad_request\"}"@,
        "{\"error\":\"database_selection_not_allowed\"}"@,
        "{\"error\":\"initialization_failed\"}"@,
        "{\"error\":\"method_not_allowed\"}"@,
        "{\"error\":\"not_found\"}"@,
        "{\"error\":\"recovery_key_confirmation_invalid\"}"@,
        "{\"error\":\"recovery_key_confirmation_required\"}"@,
        "{\"error\":\"recovery_key_invalid\"}"@,
        "{\"error\":\"request_header_fields_too_large\"}"@,
        "{\"error\":\"request_origin_denied\"}"@,
        "{\"error\":\"restore_failed\"}"@,
        "{\"error\":\"restore_not_allowed\"}"@,
        "{\"error\":\"restore_pending\"}"@,
        "{\"error\":\"restore_ticket_invalid\"}"@,
        "{\"error\":\"service_unavailable\"}"@,
        "{\"error\":\"uri_too_long\"}"@,
        "{\"lifecycle\":\"uninitialized\",\"database_selected\":false}"@,
        "{\"lifecycle\":\"uninitialized\",\"database_selected\":true}"@,
    ]
}

/// Whether the body is byte-for-byte one of the fixed JSON bodies.
pub open spec fn is_fixed_json_body(body: Seq<u8>) -> bool {
    exists|i: int| 0 <= i < fixed_json_texts().len() && encode_utf8(#[trigger] fixed_json_texts()[i]) == body
}

/// Returns the allowlisted static body equal to `body`, if any.
pub fn fixed_json_body(body: &[u8]) -> (fixed: Option<&'static str>)
    ensures
        fixed is None <==> !is_fixed_json_body(body@),
        fixed matches Some(text) ==> fixed_json_texts().contains(text@) && encode_utf8(text@) == body@,
{
    let table: [&'static str; 21] = [
        "{\"error\":\"already_initialized\"}",
        "{\"error\":\"backup_incompatible\"}",
        "{\"error\":\"backup_invalid\"}",
        "{\"error\":\"bad_request\"}",
        "{\"error\":\"database_selection_not_allowed\"}",
        "{\"error\":\"initialization_failed\"}",
        "{\"error\":\"method_not_allowed\"}",
        "{\"error\":\"not_found\"}",
        "{\"error\":\"recovery_key_confirmation_invalid\"}",
        "{\"error\":\"recovery_key_confirmation_required\"}",
        "{\"error\":\"recovery_key_invalid\"}",
        "{\"error\":\"request_header_fields_too_large\"}",
        "{\"error\":\"request_origin_denied\"}",
        "{\"error\":\"restore_failed\"}",
        "{\"error\":\"restore_not_allowed\"}",
        "{\"error\":\"restore_pending\"}",
        "{\"error\":\"restore_ticket_invalid\"}",
        "{\"error\":\"service_unavailable\"}",
        "{\"error\":\"uri_too_long\"}",
        "{\"lifecycle\":\"uninitialized\",\"database_selected\":false}",
        "{\"lifecycle\":\"uninitialized\",\"database_selected\":true}",
    ];
    let ghost texts = fixed_json_texts();
    proof {
        assert forall|k: int| 0 <= k < 21 implies (#[trigger] table@[k])@ == texts[k] by {}
    }
    let mut i: usize = 0;
    while i < 21
        invariant
            i <= 21,
            texts == fixed_json_texts(),
            texts.len() == 21,
            forall|k: int| 0 <= k < 21 ==> (#[trigger] table@[k])@ == texts[k],
            forall|k: int| 0 <= k < i ==> encode_utf8(#[trigger] texts[k]) != body@,
        decreases 21 - i,
    {
        let candidate = table[i];
        if same_bytes(body, candidate) {
            proof {
                assert(table@[i as int] == candidate);
                assert(texts[i as int] == candidate@);
            }
            return Some(candidate);
        }
        proof {
            assert(table@[i as int] == candidate);
        }
        i = i + 1;
    }
    None
}

/// A response the listener can write: status, profile, bounded body, and the
/// only header material the listener itself renders.
pub struct BoundedResponse<A> {
    pub status: u16,
    pub profile: ResponseProfile,
    pub body: Vec<u8>,
    pub allow: Option<AllowedMethod>,
    /// Rendered `Set-Cookie` lines; only the typed profile can carry them.
    pub cookies: Option<Vec<u8>>,
    /// Action run only after this response is written; only the typed profile carries one.
    pub acknowledgement: Option<A>,
}

/// The fixed-profile response with a static body.
pub open spec fn is_fixed_response<A>(r: BoundedResponse<A>, status: u16, text: Seq<char>, allow: Option<AllowedMethod>) -> bool {
    &&& r.status == status
    &&& r.profile == ResponseProfile::Json
    &&& r.body@ == encode_utf8(text)
    &&& r.allow == allow
    &&& r.cookies is None
    &&& r.acknowledgement is None
}

/// A fixed-profile JSON response with a static body.
pub fn json_fixed_response<A>(status: u16, body: &'static str) -> (r: BoundedResponse<A>)
    ensures
        is_fixed_response(r, status, body@, None),
{
    BoundedResponse {
        status,
        profile: ResponseProfile::Json,
        body: body.as_bytes_vec(),
        allow: None,
        cookies: None,
        acknowledgement: None,
    }
}

pub fn service_unavailable_response<A>() -> (r: BoundedResponse<A>)
    ensures
        is_fixed_response(r, 503, "{\"error\":\"service_unavailable\"}"@, None),
{
    json_fixed_response(503, "{\"error\":\"service_unavailable\"}")
}

pub fn method_not_allowed_response<A>() -> (r: BoundedResponse<A>)
    ensures
        is_fixed_response(r, 405, "{\"error\":\"method_not_allowed\"}"@, Some(AllowedMethod::Get)),
{
    let mut r = json_fixed_response(405, "{\"error\":\"method_not_allowed\"}");
    r.allow = Some(AllowedMethod::Get);
    r
}

pub fn request_timeout_response<A>() -> (r: BoundedResponse<A>)
    ensures
        is_fixed_response(r, 408, "{\"error\":\"request_timeout\"}"@, None),
{
    json_fixed_response(408, "{\"error\":\"request_timeout\"}")
}

pub fn gateway_timeout_response<A>() -> (r: BoundedResponse<A>)
    ensures
        is_fixed_response(r, 504, "{\"error\":\"gateway_timeout\"}"@, None),
{
    json_fixed_response(504, "{\"error\":\"gateway_timeout\"}")
}

pub fn rate_limited_response<A>() -> (r: BoundedResponse<A>)
    ensures
        is_fixed_response(r, 429, "{\"error\":\"rate_limited\"}"@, None),
{
    json_fixed_response(429, "{\"error\":\"rate_limited\"}")
}

/// Replaces an unknown, unbounded, or otherwise invalid module response with
/// the fixed redacted body while preserving the observed status framing.
pub fn redacted_response<A>(status: u16, allow: Option<AllowedMethod>) -> (r: BoundedResponse<A>)
    ensures
        is_fixed_response(r, status, "{\"error\":\"gateway_timeout\"}"@, allow),
{
    let mut r = json_fixed_response(status, "{\"error\":\"gateway_timeout\"}");
    r.allow = allow;
    r
}

/// The fixed answer to a request that could not be read or admitted.
pub open spec fn read_error_response_matches<A>(error: RequestReadError, r: BoundedResponse<A>) -> bool {
    match error {
        RequestReadError::TimedOut => is_fixed_response(r, 408, "{\"error\":\"request_timeout\"}"@, None),
        RequestReadError::TargetTooLong => is_fixed_response(r, 414, "{\"error\":\"uri_too_long\"}"@, None),
        RequestReadError::MethodNotAllowed => is_fixed_response(r, 405, "{\"error\":\"method_not_allowed\"}"@, Some(AllowedMethod::Get)),
        RequestReadError::HeadersTooLarge => is_fixed_response(r, 431, "{\"error\":\"request_header_fields_too_large\"}"@, None),
        RequestReadError::BodyUnavailable => is_fixed_response(r, 503, "{\"error\":\"service_unavailable\"}"@, None),
        RequestReadError::Invalid => is_fixed_response(r, 400, "{\"error\":\"bad_request\"}"@, None),
    }
}

/// The fixed response for each request read error.
pub fn response_for_request_read_error<A>(error: RequestReadError) -> (r: BoundedResponse<A>)
    ensures
        read_error_response_matches(error, r),
{
    match error {
        RequestReadError::TimedOut => request_timeout_response(),
        RequestReadError::TargetTooLong => json_fixed_response(414, "{\"error\":\"uri_too_long\"}"),
        RequestReadError::MethodNotAllowed => method_not_allowed_response(),
        RequestReadError::HeadersTooLarge => json_fixed_response(431, "{\"error\":\"request_header_fields_too_large\"}"),
        RequestReadError::BodyUnavailable => service_unavailable_response(),
        RequestReadError::Invalid => json_fixed_response(400, "{\"error\":\"bad_request\"}"),
    }
}

/// The fixed error codes of the listener's own not-found fallback and
/// pre-operational error responses.
#[derive(Clone, Copy, Debug, PartialEq, Eq, Structural)]
pub enum FixedErrorCode {
    BadRequest,
    MethodNotAllowed,
    NotFound,
    RequestHeaderFieldsTooLarge,
    UriTooLong,
}

pub open spec fn fixed_error_text(code: FixedErrorCode) -> Seq<char> {
    match code {
        FixedErrorCode::BadRequest => "{\"error\":\"bad_request\"}"@,
        FixedErrorCode::MethodNotAllowed => "{\"error\":\"method_not_allowed\"}"@,
        FixedErrorCode::NotFound => "{\"error\":\"not_found\"}"@,
        FixedErrorCode::RequestHeaderFieldsTooLarge => "{\"error\":\"request_header_fields_too_large\"}"@,
        FixedErrorCode::UriTooLong => "{\"error\":\"uri_too_long\"}"@,
    }
}

/// The fixed JSON body of an error code.
pub fn json_error_body(code: FixedErrorCode) -> (body: &'static str)
    ensures
        body@ == fixed_error_text(code),
{
    match code {
        FixedErrorCode::BadRequest => "{\"error\":\"bad_request\"}",
        FixedErrorCode::MethodNotAllowed => "{\"error\":\"method_not_allowed\"}",
        FixedErrorCode::NotFound => "{\"error\":\"not_found\"}",
        FixedErrorCode::RequestHeaderFieldsTooLarge => "{\"error\":\"request_header_fields_too_large\"}",
        FixedErrorCode::UriTooLong => "{\"error\":\"uri_too_long\"}",
    }
}

/// Every error body the listener composes itself is on the allowlist a
/// frozen route's fixed JSON response is held to.
pub proof fn lemma_fixed_error_bodies_are_allowlisted(code: FixedErrorCode)
    ensures
        fixed_json_texts().contains(fixed_error_text(code)),
        is_fixed_json_body(encode_utf8(fixed_error_text(code))),
{
    let texts = fixed_json_texts();
    let i: int = match code {
        FixedErrorCode::BadRequest => 3,
        FixedErrorCode::MethodNotAllowed => 6,
        FixedErrorCode::NotFound => 7,
        FixedErrorCode::RequestHeaderFieldsTooLarge => 11,
        FixedErrorCode::UriTooLong => 18,
    };
    assert(texts[i] == fixed_error_text(code));
}

} // verus!


verus! {

/// The three decimal digits of a status code.
pub open spec fn status_digits(status: u16) -> Seq<u8> {
    seq![(status / 100 + 48) as u8, ((status / 10) % 10 + 48) as u8, (status % 10 + 48) as u8]
}

pub open spec fn allow_bytes(allow: Option<AllowedMethod>) -> Seq<u8> {
    match allow {
        Some(method) => encode_utf8(allow_header_text(method)),
        None => Seq::empty(),
    }
}

pub open spec fn cookie_bytes(cookies: Option<Vec<u8>>) -> Seq<u8> {
    match cookies {
        Some(lines) => lines@,
        None => Seq::empty(),
    }
}

/// The exact head the listener writes before a response body.
pub open spec fn rendered_head<A>(r: BoundedResponse<A>) -> Seq<u8> {
    encode_utf8("HTTP/1.1 "@) + status_digits(r.status) + encode_utf8(" \r\nContent-Type: "@)
        + encode_utf8(media_type_text(r.profile)) + encode_utf8("\r\n"@) + allow_bytes(r.allow)
        + cookie_bytes(r.cookies) + encode_utf8(security_headers_text(r.profile)) + encode_utf8("\r\n"@)
}

/// Appends `more` to `out`.
pub(crate) fn append(out: &mut Vec<u8>, more: &[u8])
    ensures
        final(out)@ == old(out)@ + more@,
{
    let mut i: usize = 0;
    while i < more.len()
        invariant
            i <= more@.len(),
            out@ == old(out)@ + more@.subrange(0, i as int),
        decreases more@.len() - i,
    {
        out.push(more[i]);
        i = i + 1;
        proof {
            assert(out@ =~= old(out)@ + more@.subrange(0, i as int));
        }
    }
    proof {
        assert(more@.subrange(0, more@.len() as int) =~= more@);
    }
}

/// Renders the response head: status line, media type, the fixed `Allow`
/// line, rendered cookies, the profile's security headers, and the blank line.
pub fn render_head<A>(r: &BoundedResponse<A>) -> (head: Vec<u8>)
    requires
        100 <= r.status <= 999,
    ensures
        head@ == rendered_head(*r),
{
    let mut out: Vec<u8> = Vec::new();
    append(&mut out, "HTTP/1.1 ".as_bytes());
    let s = r.status;
    let digits: [u8; 3] = [(s / 100 + 48) as u8, ((s / 10) % 10 + 48) as u8, (s % 10 + 48) as u8];
    proof {
        assert(digits@ =~= status_digits(s));
    }
    append(&mut out, digits.as_slice());
    append(&mut out, " \r\nContent-Type: ".as_bytes());
    append(&mut out, r.profile.media_type().as_bytes());
    append(&mut out, "\r\n".as_bytes());
    match r.allow {
        Some(method) => append(&mut out, method.allow_header().as_bytes()),
        None => {},
    }
    match &r.cookies {
        Some(lines) => append(&mut out, lines.as_slice()),
        None => {},
    }
    append(&mut out, r.profile.security_headers().as_bytes());
    append(&mut out, "\r\n".as_bytes());
    proof {
        assert(out@ =~= rendered_head(*r));
    }
    out
}

/// A response to a `HEAD` request keeps its status and headers but no body.
pub fn without_body_for_head<A>(r: BoundedResponse<A>, is_head: bool) -> (out: BoundedResponse<A>)
    ensures
        out.status == r.status,
        out.profile == r.profile,
        out.allow == r.allow,
        out.cookies == r.cookies,
        out.acknowledgement == r.acknowledgement,
        out.body@ == if is_head { Seq::<u8>::empty() } else { r.body@ },
{
    let mut out = r;
    if is_head {
        out.body = Vec::new();
    }
    out
}

/// What the listener does next with a module's response.
pub enum ModuleResponseStep<A> {
    /// The response is decided.
    Done(BoundedResponse<A>),
    /// Read at most the profile's bound of the module body, then finish.
    ReadBody { profile: ResponseProfile, allow: Option<AllowedMethod> },
}

pub open spec fn allow_of(value: Option<&[u8]>) -> Option<AllowedMethod> {
    match value {
        Some(v) => allowed_method_for(v@),
        None => None,
    }
}

pub open spec fn profile_of(value: Option<&[u8]>) -> Option<ResponseProfile> {
    match value {
        Some(v) => profile_for_media_type(v@),
        None => None,
    }
}

/// Decides a module response from what it carries: a typed envelope the
/// listener serialized (`typed_envelope`), a cookie effect (`None` when
/// absent, `Some(None)` when it did not render), a post-write action, and the
/// observed `Allow` and `Content-Type` values.
pub fn compose_module_response<A>(
    status: u16,
    allow_value: Option<&[u8]>,
    effect: Option<Option<Vec<u8>>>,
    acknowledgement: Option<A>,
    typed_envelope: Option<Vec<u8>>,
    content_type: Option<&[u8]>,
) -> (step: ModuleResponseStep<A>)
    ensures
        match typed_envelope {
            Some(body) => {
                if body@.len() > MAX_TYPED_JSON_BODY_BYTES || effect == Some(None::<Vec<u8>>) {
                    step matches ModuleResponseStep::Done(r) && is_fixed_response(r, status, "{\"error\":\"gateway_timeout\"}"@, allow_of(allow_value))
                } else {
                    step matches ModuleResponseStep::Done(r) && r.status == status
                        && r.profile == ResponseProfile::TypedJson && r.body@ == body@
                        && r.allow == allow_of(allow_value)
                        && r.cookies == (match effect { Some(Some(lines)) => Some(lines), _ => None::<Vec<u8>> })
                        && r.acknowledgement == acknowledgement
                }
            },
            None => {
                if effect is Some || acknowledgement is Some || profile_of(content_type) is None {
                    step matches ModuleResponseStep::Done(r) && is_fixed_response(r, status, "{\"error\":\"gateway_timeout\"}"@, allow_of(allow_value))
                } else {
                    step matches ModuleResponseStep::ReadBody { profile, allow }
                        && Some(profile) == profile_of(content_type) && allow == allow_of(allow_value)
                }
            },
        },
        step matches ModuleResponseStep::Done(r) ==> r.body@.len() <= max_body_for(r.profile),
{
    proof {
        lemma_redacted_body_fits();
    }
    let allow = match allow_value {
        Some(value) => AllowedMethod::from_header_value(value),
        None => None,
    };
    match typed_envelope {
        Some(body) => {
            if body.len() > MAX_TYPED_JSON_BODY_BYTES {
                return ModuleResponseStep::Done(redacted_response(status, allow));
            }
            let cookies = match effect {
                Some(Some(lines)) => Some(lines),
                Some(None) => return ModuleResponseStep::Done(redacted_response(status, allow)),
                None => None,
            };
            ModuleResponseStep::Done(BoundedResponse {
                status,
                profile: ResponseProfile::TypedJson,
                body,
                allow,
                cookies,
                acknowledgement,
            })
        },
        None => {
            if effect.is_some() || acknowledgement.is_some() {
                return ModuleResponseStep::Done(redacted_response(status, allow));
            }
            let profile = match content_type {
                Some(value) => ResponseProfile::from_media_type(value),
                None => None,
            };
            match profile {
                Some(profile) => ModuleResponseStep::ReadBody { profile, allow },
                None => ModuleResponseStep::Done(redacted_response(status, allow)),
            }
        },
    }
}

/// The fixed redacted body fits the fixed profile's bound.
proof fn lemma_redacted_body_fits()
    ensures
        encode_utf8("{\"error\":\"gateway_timeout\"}"@).len() <= MAX_JSON_BODY_BYTES,
{
    reveal_strlit("{\"error\":\"gateway_timeout\"}");
    vstd::utf8::is_ascii_chars_encode_utf8("{\"error\":\"gateway_timeout\"}"@);
}

/// Finishes a module response from the body read under the profile's bound:
/// `None` when the body could not be read. A body longer than the bound, or
/// a fixed-profile body off the allowlist, is replaced by the redacted body;
/// every result fits its own profile's bound.
pub fn finish_module_response<A>(
    status: u16,
    allow: Option<AllowedMethod>,
    profile: ResponseProfile,
    body: Option<Vec<u8>>,
) -> (r: BoundedResponse<A>)
    ensures
        match body {
            None => is_fixed_response(r, status, "{\"error\":\"gateway_timeout\"}"@, allow),
            Some(bytes) => {
                if bytes@.len() > max_body_for(profile)
                    || (profile == ResponseProfile::Json && !is_fixed_json_body(bytes@)) {
                    is_fixed_response(r, status, "{\"error\":\"gateway_timeout\"}"@, allow)
                } else {
                    &&& r.status == status
                    &&& r.profile == profile
                    &&& r.body@ == bytes@
                    &&& r.allow == allow
                    &&& r.cookies is None
                    &&& r.acknowledgement is None
                }
            },
        },
        r.body@.len() <= max_body_for(r.profile),
{
    proof {
        lemma_redacted_body_fits();
    }
    let body = match body {
        Some(body) => body,
        None => return redacted_response(status, allow),
    };
    if body.len() > profile.max_body_bytes() {
        return redacted_response(status, allow);
    }
    if profile == ResponseProfile::Json {
        return match fixed_json_body(body.as_slice()) {
            Some(text) => {
                let mut r = json_fixed_response(status, text);
                r.allow = allow;
                r
            },
            None => redacted_response(status, allow),
        };
    }
    BoundedResponse { status, profile, body, allow, cookies: None, acknowledgement: None }
}

} // verus!
