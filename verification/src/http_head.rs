//! Request-head admission: the request-line state machine the listener runs
//! byte by byte, the bounded head reader, and the parse of a completed head.
use vstd::prelude::*;
use crate::bytes::{copy_range, ends_with, find_byte, first_index, lemma_first_index_unique};

verus! {

/// Largest request target, in bytes.
pub const MAX_REQUEST_TARGET_BYTES: usize = 2 * 1024;
/// Largest raw header section, in bytes.
pub const MAX_REQUEST_HEADER_BYTES: usize = 8 * 1024;
/// Largest complete request head, in bytes.
pub const MAX_REQUEST_HEAD_BYTES: usize = MAX_REQUEST_TARGET_BYTES + MAX_REQUEST_HEADER_BYTES + 128;
/// Body allowance for the one method that may carry a body.
pub const MAX_REQUEST_BODY_BYTES: usize = 1024;

pub open spec fn sp() -> u8 { 32u8 }
pub open spec fn cr() -> u8 { 13u8 }
pub open spec fn lf() -> u8 { 10u8 }

pub open spec fn crlf() -> Seq<u8> { seq![13u8, 10u8] }
pub open spec fn get_bytes() -> Seq<u8> { seq![71u8, 69u8, 84u8] }
pub open spec fn put_bytes() -> Seq<u8> { seq![80u8, 85u8, 84u8] }
pub open spec fn head_bytes() -> Seq<u8> { seq![72u8, 69u8, 65u8, 68u8] }

/// Why a request head or body could not be admitted.
#[derive(Clone, Copy, Debug, PartialEq, Eq, Structural)]
pub enum RequestReadError {
    TimedOut,
    TargetTooLong,
    MethodNotAllowed,
    HeadersTooLarge,
    /// The host could not supply memory for an admitted body.
    BodyUnavailable,
    Invalid,
}

/// What a completed request line declares.
#[derive(Clone, Copy, Debug, PartialEq, Eq, Structural)]
pub enum RequestLineClassification {
    Get,
    Put,
    OtherMethod,
    Invalid,
}

/// Where the listener is inside the request line.
#[derive(Clone, Copy, Debug, PartialEq, Eq, Structural)]
pub enum RequestLineState {
    Method,
    Target(usize),
    Version,
    VersionEnding,
    Headers(RequestLineClassification),
    Invalid,
}

/// An HTTP token character, as the method grammar admits it.
pub open spec fn is_tchar(b: u8) -> bool {
    ||| b == 33 || b == 35 || b == 36 || b == 37 || b == 38 || b == 39
    ||| b == 42 || b == 43 || b == 45 || b == 46
    ||| 48 <= b <= 57
    ||| 65 <= b <= 90
    ||| b == 94 || b == 95 || b == 96
    ||| 97 <= b <= 122
    ||| b == 124 || b == 126
}

/// A method token: nonempty and made of token characters only.
pub open spec fn is_method_token(m: Seq<u8>) -> bool {
    m.len() > 0 && forall|i: int| 0 <= i < m.len() ==> is_tchar(#[trigger] m[i])
}

/// Whether the `http` crate's URI parser accepts the bytes as a request target.
pub uninterp spec fn uri_accepts(target: Seq<u8>) -> bool;

/// `http::Method::from_bytes` accepts exactly the nonempty byte strings made of
/// token characters: its source rejects the empty string and any byte whose
/// entry in its method character table is zero, which are the non-token bytes.
#[verifier::external_body]
fn method_accepts(method: &[u8]) -> (accepted: bool)
    ensures
        accepted == is_method_token(method@),
{
    axum::http::Method::from_bytes(method).is_ok()
}

/// `http::Uri::try_from` on the target bytes; what it accepts is named, not stated.
#[verifier::external_body]
fn target_parses(target: &[u8]) -> (accepted: bool)
    ensures
        accepted == uri_accepts(target@),
{
    axum::http::Uri::try_from(target).is_ok()
}

/// `std::str::from_utf8` succeeds exactly on well-formed UTF-8.
#[verifier::external_body]
fn is_utf8(bytes: &[u8]) -> (valid: bool)
    ensures
        valid == vstd::utf8::valid_utf8(bytes@),
{
    std::str::from_utf8(bytes).is_ok()
}

pub open spec fn is_http1_version(v: Seq<u8>) -> bool {
    v == seq![72u8, 84u8, 84u8, 80u8, 47u8, 49u8, 46u8, 48u8]
        || v == seq![72u8, 84u8, 84u8, 80u8, 47u8, 49u8, 46u8, 49u8]
}

/// The three space-separated fields of a request line, when there are exactly three.
pub open spec fn three_fields(line: Seq<u8>) -> Option<(Seq<u8>, Seq<u8>, Seq<u8>)> {
    let i = first_index(line, sp());
    if i == line.len() {
        None
    } else {
        let rest = line.subrange(i + 1, line.len() as int);
        let j = first_index(rest, sp());
        if j == rest.len() {
            None
        } else {
            let version = rest.subrange(j + 1, rest.len() as int);
            if first_index(version, sp()) < version.len() {
                None
            } else {
                Some((line.subrange(0, i), rest.subrange(0, j), version))
            }
        }
    }
}

/// The classification of a request line that ends at its CRLF.
pub open spec fn classify_line(bytes: Seq<u8>) -> RequestLineClassification {
    if !ends_with(bytes, crlf()) {
        RequestLineClassification::Invalid
    } else {
        match three_fields(bytes.subrange(0, bytes.len() - 2)) {
            None => RequestLineClassification::Invalid,
            Some((method, target, version)) => {
                if method.len() == 0 || target.len() == 0 || !is_http1_version(version)
                    || !vstd::utf8::valid_utf8(target) || !uri_accepts(target) {
                    RequestLineClassification::Invalid
                } else if !is_method_token(method) {
                    RequestLineClassification::Invalid
                } else if method == get_bytes() {
                    RequestLineClassification::Get
                } else if method == put_bytes() {
                    RequestLineClassification::Put
                } else {
                    RequestLineClassification::OtherMethod
                }
            },
        }
    }
}

/// The leading method field of a partial request line: everything before the
/// first space, or everything when there is none.
pub open spec fn leading_method(bytes: Seq<u8>) -> Seq<u8> {
    bytes.subrange(0, first_index(bytes, sp()))
}

/// Whether a partial request line already names a valid method other than GET.
pub open spec fn has_non_get_method(bytes: Seq<u8>) -> bool {
    leading_method(bytes) != get_bytes() && is_method_token(leading_method(bytes))
}

fn is_literal3(s: &[u8], a: u8, b: u8, c: u8) -> (r: bool)
    ensures
        r == (s@ == seq![a, b, c]),
{
    let r = s.len() == 3 && s[0] == a && s[1] == b && s[2] == c;
    proof {
        if s@.len() == 3 {
            if s@ == seq![a, b, c] {
                assert(s@[0] == a && s@[1] == b && s@[2] == c);
            }
            if r {
                assert(s@ =~= seq![a, b, c]);
            }
        }
    }
    r
}

/// Whether `s` is the method `GET`.
pub fn is_get(s: &[u8]) -> (r: bool)
    ensures
        r == (s@ == get_bytes()),
{
    is_literal3(s, 71, 69, 84)
}

/// Whether `s` is the method `PUT`.
pub fn is_put(s: &[u8]) -> (r: bool)
    ensures
        r == (s@ == put_bytes()),
{
    is_literal3(s, 80, 85, 84)
}

/// Whether `s` is the method `HEAD`.
pub fn is_head(s: &[u8]) -> (r: bool)
    ensures
        r == (s@ == head_bytes()),
{
    let r = s.len() == 4 && s[0] == 72 && s[1] == 69 && s[2] == 65 && s[3] == 68;
    proof {
        if s@.len() == 4 {
            if s@ == head_bytes() {
                assert(s@[0] == 72 && s@[1] == 69 && s@[2] == 65 && s@[3] == 68);
            }
            if r {
                assert(s@ =~= head_bytes());
            }
        }
    }
    r
}

fn is_http1_version_exec(v: &[u8]) -> (r: bool)
    ensures
        r == is_http1_version(v@),
{
    let r = v.len() == 8 && v[0] == 72 && v[1] == 84 && v[2] == 84 && v[3] == 80 && v[4] == 47
        && v[5] == 49 && v[6] == 46 && (v[7] == 48 || v[7] == 49);
    proof {
        let v0 = seq![72u8, 84u8, 84u8, 80u8, 47u8, 49u8, 46u8, 48u8];
        let v1 = seq![72u8, 84u8, 84u8, 80u8, 47u8, 49u8, 46u8, 49u8];
        if r {
            if v@[7] == 48 {
                assert(v@ =~= v0);
            } else {
                assert(v@ =~= v1);
            }
        }
        if v@ == v0 {
            assert(v@[0] == 72 && v@[1] == 84 && v@[2] == 84 && v@[3] == 80);
            assert(v@[4] == 47 && v@[5] == 49 && v@[6] == 46 && v@[7] == 48);
        }
        if v@ == v1 {
            assert(v@[0] == 72 && v@[1] == 84 && v@[2] == 84 && v@[3] == 80);
            assert(v@[4] == 47 && v@[5] == 49 && v@[6] == 46 && v@[7] == 49);
        }
    }
    r
}

/// Classifies a request line that has just completed with its CRLF.
pub fn classify_completed_request_line(bytes: &[u8]) -> (c: RequestLineClassification)
    ensures
        c == classify_line(bytes@),
{
    let n = bytes.len();
    if n < 2 || bytes[n - 2] != 13 || bytes[n - 1] != 10 {
        proof {
            if n >= 2 && ends_with(bytes@, crlf()) {
                let t = bytes@.subrange(n - 2, n as int);
                assert(t[0] == bytes@[n - 2] && t[1] == bytes@[n - 1]);
            }
        }
        return RequestLineClassification::Invalid;
    }
    proof {
        assert(bytes@.subrange(n - 2, n as int) =~= crlf());
    }
    let line = copy_range(bytes, 0, n - 2);
    let ghost l = line@;
    let i = find_byte(line.as_slice(), 0, 32);
    proof {
        assert(l.subrange(0, l.len() as int) =~= l);
    }
    if i == line.len() {
        return RequestLineClassification::Invalid;
    }
    let j_abs = find_byte(line.as_slice(), i + 1, 32);
    let ghost rest = l.subrange(i + 1, l.len() as int);
    if j_abs == line.len() {
        return RequestLineClassification::Invalid;
    }
    let k_abs = find_byte(line.as_slice(), j_abs + 1, 32);
    proof {
        let j = j_abs - (i + 1);
        assert(rest.subrange(j + 1, rest.len() as int) =~= l.subrange(j_abs + 1, l.len() as int));
    }
    if k_abs < line.len() {
        return RequestLineClassification::Invalid;
    }
    let method = copy_range(line.as_slice(), 0, i);
    let target = copy_range(line.as_slice(), i + 1, j_abs);
    let version = copy_range(line.as_slice(), j_abs + 1, line.len());
    proof {
        let j = j_abs - (i + 1);
        assert(rest.subrange(0, j) =~= target@);
        assert(rest.subrange(j + 1, rest.len() as int) =~= version@);
        assert(three_fields(l) == Some((method@, target@, version@)));
    }
    if method.len() == 0 || target.len() == 0 || !is_http1_version_exec(version.as_slice()) {
        return RequestLineClassification::Invalid;
    }
    if !is_utf8(target.as_slice()) || !target_parses(target.as_slice()) {
        return RequestLineClassification::Invalid;
    }
    if !method_accepts(method.as_slice()) {
        return RequestLineClassification::Invalid;
    }
    if is_get(method.as_slice()) {
        RequestLineClassification::Get
    } else if is_put(method.as_slice()) {
        RequestLineClassification::Put
    } else {
        RequestLineClassification::OtherMethod
    }
}

/// A byte string with no space in it.
pub open spec fn has_no_space(s: Seq<u8>) -> bool {
    forall|k: int| 0 <= k < s.len() ==> s[k] != sp()
}

/// The request line made of a method, a target and a version, separated by
/// single spaces and ended by CRLF.
pub open spec fn request_line(method: Seq<u8>, target: Seq<u8>, version: Seq<u8>) -> Seq<u8> {
    method + seq![sp()] + target + seq![sp()] + version + crlf()
}

/// A well-formed request line is classified by its method alone, and never
/// as invalid: `GET` and `PUT` by name, and every other method token (such
/// as `HEAD`) as another method.
pub proof fn lemma_well_formed_line_is_classified_by_method(method: Seq<u8>, target: Seq<u8>, version: Seq<u8>)
    requires
        is_method_token(method),
        target.len() > 0,
        has_no_space(target),
        vstd::utf8::valid_utf8(target),
        uri_accepts(target),
        is_http1_version(version),
    ensures
        classify_line(request_line(method, target, version)) == if method == get_bytes() {
            RequestLineClassification::Get
        } else if method == put_bytes() {
            RequestLineClassification::Put
        } else {
            RequestLineClassification::OtherMethod
        },
{
    let bytes = request_line(method, target, version);
    let line = method + seq![sp()] + target + seq![sp()] + version;
    assert(bytes.subrange(bytes.len() - 2, bytes.len() as int) =~= crlf());
    assert(bytes.subrange(0, bytes.len() - 2) =~= line);
    assert forall|k: int| 0 <= k < method.len() implies line[k] != sp() by {
        assert(line[k] == method[k]);
        assert(is_tchar(method[k]));
    }
    lemma_first_index_unique(line, sp(), method.len() as int);
    let rest = line.subrange(method.len() as int + 1, line.len() as int);
    assert(rest =~= target + seq![sp()] + version);
    assert forall|k: int| 0 <= k < target.len() implies rest[k] != sp() by {
        assert(rest[k] == target[k]);
    }
    lemma_first_index_unique(rest, sp(), target.len() as int);
    let tail = rest.subrange(target.len() as int + 1, rest.len() as int);
    assert(tail =~= version);
    assert forall|k: int| 0 <= k < version.len() implies version[k] != sp() by {
        assert(version[k] == 72u8 || version[k] == 84u8 || version[k] == 80u8 || version[k] == 47u8
            || version[k] == 49u8 || version[k] == 46u8 || version[k] == 48u8);
    }
    lemma_first_index_unique(version, sp(), version.len() as int);
    assert(rest.subrange(0, target.len() as int) =~= target);
    assert(line.subrange(0, method.len() as int) =~= method);
}

/// Whether a partial request line already names a valid method other than GET.
pub fn request_line_has_non_get_method(bytes: &[u8]) -> (r: bool)
    ensures
        r == has_non_get_method(bytes@),
{
    let end = find_byte(bytes, 0, 32);
    proof {
        assert(bytes@.subrange(0, bytes@.len() as int) =~= bytes@);
    }
    let method = copy_range(bytes, 0, end);
    !is_get(method.as_slice()) && method_accepts(method.as_slice())
}

/// The state after observing `byte`, where `bytes` already ends with it.
pub open spec fn observe_next(state: RequestLineState, byte: u8, bytes: Seq<u8>) -> RequestLineState {
    match state {
        RequestLineState::Method => {
            if byte == sp() {
                RequestLineState::Target(0)
            } else if byte == cr() {
                RequestLineState::Invalid
            } else {
                RequestLineState::Method
            }
        },
        RequestLineState::Target(n) => {
            if byte == sp() {
                RequestLineState::Version
            } else if byte == cr() {
                RequestLineState::Invalid
            } else {
                RequestLineState::Target((n + 1) as usize)
            }
        },
        RequestLineState::Version => {
            if byte == cr() {
                RequestLineState::VersionEnding
            } else {
                RequestLineState::Version
            }
        },
        RequestLineState::VersionEnding => {
            if byte == lf() {
                RequestLineState::Headers(classify_line(bytes))
            } else {
                RequestLineState::Invalid
            }
        },
        other => other,
    }
}

/// Whether the state records a target longer than the bound.
pub open spec fn target_overlong(state: RequestLineState) -> bool {
    state matches RequestLineState::Target(n) && n > MAX_REQUEST_TARGET_BYTES
}

/// The error a head that outgrew the aggregate bound receives.
pub open spec fn limit_error_for(state: RequestLineState, bytes: Seq<u8>) -> RequestReadError {
    match state {
        RequestLineState::Target(n) => {
            if n > MAX_REQUEST_TARGET_BYTES {
                RequestReadError::TargetTooLong
            } else if has_non_get_method(bytes) {
                RequestReadError::MethodNotAllowed
            } else {
                RequestReadError::Invalid
            }
        },
        RequestLineState::Method => {
            if has_non_get_method(bytes) {
                RequestReadError::MethodNotAllowed
            } else {
                RequestReadError::Invalid
            }
        },
        RequestLineState::Version
        | RequestLineState::VersionEnding
        | RequestLineState::Invalid => RequestReadError::Invalid,
        RequestLineState::Headers(c) => match c {
            RequestLineClassification::OtherMethod => RequestReadError::MethodNotAllowed,
            RequestLineClassification::Get
            | RequestLineClassification::Put => RequestReadError::HeadersTooLarge,
            RequestLineClassification::Invalid => RequestReadError::Invalid,
        },
    }
}

/// The classification retained once the request line completed.
pub open spec fn retained_classification(state: RequestLineState) -> RequestLineClassification {
    match state {
        RequestLineState::Headers(c) => c,
        _ => RequestLineClassification::Invalid,
    }
}

impl RequestLineState {
    /// Advances over one byte already appended to `bytes`, and reports whether
    /// the target has now outgrown its bound.
    pub fn observe(&mut self, byte: u8, bytes: &[u8]) -> (overlong: bool)
        requires
            *old(self) matches RequestLineState::Target(n) ==> n < usize::MAX,
        ensures
            *final(self) == observe_next(*old(self), byte, bytes@),
            overlong == target_overlong(*final(self)),
    {
        match self {
            Self::Method if byte == 32 => *self = Self::Target(0),
            Self::Method if byte == 13 => *self = Self::Invalid,
            Self::Target(_) if byte == 32 => *self = Self::Version,
            Self::Target(_) if byte == 13 => *self = Self::Invalid,
            Self::Target(length) => {
                *length += 1;
            },
            Self::Version if byte == 13 => *self = Self::VersionEnding,
            Self::Version => {},
            Self::VersionEnding if byte == 10 => {
                *self = Self::Headers(classify_completed_request_line(bytes));
            },
            Self::VersionEnding => *self = Self::Invalid,
            Self::Headers(_) | Self::Invalid | Self::Method => {},
        }
        match self {
            Self::Target(length) => *length > MAX_REQUEST_TARGET_BYTES,
            _ => false,
        }
    }

    /// The error for a head that outgrew the aggregate bound in this state.
    pub fn limit_error(&self, bytes: &[u8]) -> (error: RequestReadError)
        ensures
            error == limit_error_for(*self, bytes@),
    {
        match self {
            Self::Target(length) if *length > MAX_REQUEST_TARGET_BYTES => {
                RequestReadError::TargetTooLong
            },
            Self::Method | Self::Target(_) => {
                if request_line_has_non_get_method(bytes) {
                    RequestReadError::MethodNotAllowed
                } else {
                    RequestReadError::Invalid
                }
            },
            Self::Version | Self::VersionEnding | Self::Invalid => RequestReadError::Invalid,
            Self::Headers(RequestLineClassification::OtherMethod) => {
                RequestReadError::MethodNotAllowed
            },
            Self::Headers(RequestLineClassification::Get | RequestLineClassification::Put) => {
                RequestReadError::HeadersTooLarge
            },
            Self::Headers(RequestLineClassification::Invalid) => RequestReadError::Invalid,
        }
    }

    /// The classification of a completed request line, or `Invalid` before one.
    pub fn completed_classification(&self) -> (c: RequestLineClassification)
        ensures
            c == retained_classification(*self),
    {
        match self {
            Self::Headers(classification) => *classification,
            _ => RequestLineClassification::Invalid,
        }
    }
}

} // verus!

verus! {

/// Whether a CRLF pair starts at `k`.
pub open spec fn crlf_at(s: Seq<u8>, k: int) -> bool {
    s[k] == cr() && s[k + 1] == lf()
}

/// Index of the first CRLF pair in `s`, if any.
pub open spec fn first_crlf(s: Seq<u8>) -> Option<int>
    decreases s.len(),
{
    if s.len() < 2 {
        None
    } else if s[0] == cr() && s[1] == lf() {
        Some(0)
    } else {
        match first_crlf(s.drop_first()) {
            Some(i) => Some(i + 1),
            None => None,
        }
    }
}

proof fn lemma_first_crlf_unique(s: Seq<u8>, r: int)
    requires
        0 <= r,
        r + 1 < s.len(),
        s[r] == cr() && s[r + 1] == lf(),
        forall|k: int| 0 <= k < r ==> !#[trigger] crlf_at(s, k),
    ensures
        first_crlf(s) == Some(r),
    decreases s.len(),
{
    if r > 0 {
        let t = s.drop_first();
        assert(!crlf_at(s, 0));
        assert forall|k: int| 0 <= k < r - 1 implies !crlf_at(t, k) by {
            assert(!crlf_at(s, k + 1));
            assert(t[k] == s[k + 1] && t[k + 1] == s[k + 2]);
        }
        assert(t[r - 1] == s[r] && t[r] == s[r + 1]);
        lemma_first_crlf_unique(t, r - 1);
    }
}

proof fn lemma_first_crlf_none(s: Seq<u8>)
    requires
        forall|k: int| 0 <= k && k + 1 < s.len() ==> !#[trigger] crlf_at(s, k),
    ensures
        first_crlf(s) is None,
    decreases s.len(),
{
    if s.len() >= 2 {
        let t = s.drop_first();
        assert(!crlf_at(s, 0));
        assert forall|k: int| 0 <= k && k + 1 < t.len() implies !crlf_at(t, k) by {
            assert(!crlf_at(s, k + 1));
            assert(t[k] == s[k + 1] && t[k + 1] == s[k + 2]);
        }
        lemma_first_crlf_none(t);
    }
}

/// The length of the raw header section: everything between the request
/// line's CRLF and the final CRLF of the head.
pub open spec fn raw_header_bytes(bytes: Seq<u8>) -> Result<int, RequestReadError> {
    match first_crlf(bytes) {
        None => Err(RequestReadError::Invalid),
        Some(i) => {
            if bytes.len() < 2 || bytes.len() - 2 < i + 2 {
                Err(RequestReadError::Invalid)
            } else {
                Ok(bytes.len() - 2 - (i + 2))
            }
        },
    }
}

/// Measures the raw header section of a completed head.
pub fn raw_header_section_bytes(bytes: &[u8]) -> (r: Result<usize, RequestReadError>)
    ensures
        match r {
            Ok(n) => raw_header_bytes(bytes@) == Ok::<int, RequestReadError>(n as int),
            Err(e) => raw_header_bytes(bytes@) == Err::<int, RequestReadError>(e),
        },
{
    let n = bytes.len();
    let mut i: usize = 0;
    while i < n && i + 1 < n && !(bytes[i] == 13 && bytes[i + 1] == 10)
        invariant
            n == bytes@.len(),
            i <= n,
            forall|k: int| 0 <= k < i && k + 1 < n ==> !#[trigger] crlf_at(bytes@, k),
        decreases n - i,
    {
        i = i + 1;
    }
    if i >= n || i + 1 >= n {
        proof {
            lemma_first_crlf_none(bytes@);
        }
        return Err(RequestReadError::Invalid);
    }
    proof {
        lemma_first_crlf_unique(bytes@, i as int);
    }
    let request_line_end = i + 2;
    if n < 2 {
        return Err(RequestReadError::Invalid);
    }
    let section_end = n - 2;
    if section_end < request_line_end {
        return Err(RequestReadError::Invalid);
    }
    Ok(section_end - request_line_end)
}

/// Whether every byte is an ASCII decimal digit.
pub open spec fn all_digits(s: Seq<u8>) -> bool {
    forall|i: int| 0 <= i < s.len() ==> 48 <= #[trigger] s[i] <= 57
}

/// The decimal value of a digit string.
pub open spec fn decimal(s: Seq<u8>) -> nat
    decreases s.len(),
{
    if s.len() == 0 {
        0
    } else {
        decimal(s.drop_last()) * 10 + (s.last() - 48) as nat
    }
}

/// A `Content-Length` made of decimal digits only, when it fits in `usize`.
pub open spec fn content_length_value(s: Seq<u8>) -> Option<nat> {
    if s.len() == 0 || !all_digits(s) || decimal(s) > usize::MAX {
        None
    } else {
        Some(decimal(s))
    }
}

/// The single canonical `Content-Length` a `PUT` may declare: no leading zero.
pub open spec fn canonical_length_value(s: Seq<u8>) -> Option<nat> {
    if s.len() > 1 && s[0] == 48 {
        None
    } else {
        content_length_value(s)
    }
}

proof fn lemma_decimal_prefix_monotone(s: Seq<u8>, k: int)
    requires
        0 <= k <= s.len(),
        all_digits(s),
    ensures
        decimal(s.subrange(0, k)) <= decimal(s),
    decreases s.len() - k,
{
    if k < s.len() {
        let t = s.subrange(0, k + 1);
        assert(t.drop_last() =~= s.subrange(0, k));
        assert(48 <= s[k]);
        lemma_decimal_prefix_monotone(s, k + 1);
    } else {
        assert(s.subrange(0, k) =~= s);
    }
}

/// Parses a `Content-Length` that carries only decimal digits.
pub fn content_length_digits(value: &[u8]) -> (r: Option<usize>)
    ensures
        match r {
            Some(n) => content_length_value(value@) == Some(n as nat),
            None => content_length_value(value@) is None,
        },
{
    let n = value.len();
    if n == 0 {
        return None;
    }
    let mut i: usize = 0;
    while i < n
        invariant
            n == value@.len(),
            i <= n,
            forall|k: int| 0 <= k < i ==> 48 <= #[trigger] value@[k] <= 57,
        decreases n - i,
    {
        if !(48 <= value[i] && value[i] <= 57) {
            return None;
        }
        i = i + 1;
    }
    assert(all_digits(value@));
    let mut length: usize = 0;
    let mut j: usize = 0;
    while j < n
        invariant
            n == value@.len(),
            j <= n,
            all_digits(value@),
            length as nat == decimal(value@.subrange(0, j as int)),
        decreases n - j,
    {
        let ghost prefix = value@.subrange(0, j as int + 1);
        proof {
            assert(prefix.drop_last() =~= value@.subrange(0, j as int));
            assert(prefix.last() == value@[j as int]);
        }
        let digit = (value[j] - 48) as usize;
        match length.checked_mul(10) {
            None => {
                proof {
                    lemma_decimal_prefix_monotone(value@, j as int + 1);
                }
                return None;
            },
            Some(scaled) => match scaled.checked_add(digit) {
                None => {
                    proof {
                        lemma_decimal_prefix_monotone(value@, j as int + 1);
                    }
                    return None;
                },
                Some(next) => {
                    length = next;
                },
            },
        }
        j = j + 1;
    }
    proof {
        assert(value@.subrange(0, n as int) =~= value@);
    }
    Some(length)
}

/// Parses the single canonical decimal `Content-Length` a `PUT` must declare.
pub fn canonical_content_length(value: &[u8]) -> (r: Option<usize>)
    ensures
        match r {
            Some(n) => canonical_length_value(value@) == Some(n as nat),
            None => canonical_length_value(value@) is None,
        },
{
    if value.len() > 1 && value[0] == 48 {
        return None;
    }
    content_length_digits(value)
}

} // verus!

verus! {

/// One header field: the name as the header map canonicalizes it, and the value.
pub struct HeaderField {
    pub name: Vec<u8>,
    pub value: Vec<u8>,
}

impl View for HeaderField {
    type V = (Seq<u8>, Seq<u8>);

    open spec fn view(&self) -> (Seq<u8>, Seq<u8>) {
        (self.name@, self.value@)
    }
}

/// The views of a list of header fields.
pub open spec fn fields_view(fields: Seq<HeaderField>) -> Seq<(Seq<u8>, Seq<u8>)> {
    Seq::new(fields.len(), |i: int| fields[i]@)
}

/// What `httparse` reports for a complete head, as plain bytes.
pub struct RawHead {
    pub method: Option<Vec<u8>>,
    pub target: Option<Vec<u8>>,
    pub headers: Vec<HeaderField>,
}

pub struct RawHeadView {
    pub method: Option<Seq<u8>>,
    pub target: Option<Seq<u8>>,
    pub headers: Seq<(Seq<u8>, Seq<u8>)>,
}

pub open spec fn option_bytes_view(o: Option<Vec<u8>>) -> Option<Seq<u8>> {
    match o {
        Some(v) => Some(v@),
        None => None,
    }
}

impl View for RawHead {
    type V = RawHeadView;

    open spec fn view(&self) -> RawHeadView {
        RawHeadView {
            method: option_bytes_view(self.method),
            target: option_bytes_view(self.target),
            headers: fields_view(self.headers@),
        }
    }
}

/// What `httparse::Request::parse` reports for the bytes with room for
/// `max_headers` headers: `None` unless it reports a complete head.
pub uninterp spec fn httparse_head(bytes: Seq<u8>, max_headers: nat) -> Option<RawHeadView>;

/// A token character of a header name: `!#$%&'*+-.^_`|~`, a digit or a letter.
pub open spec fn is_header_name_byte(b: u8) -> bool {
    b == 33 || (35 <= b <= 39) || b == 42 || b == 43 || b == 45 || b == 46 || (48 <= b <= 57)
        || (65 <= b <= 90) || (94 <= b <= 122) || b == 124 || b == 126
}

/// A byte with ASCII upper-case letters made lower-case.
pub open spec fn ascii_lower(b: u8) -> u8 {
    if 65 <= b <= 90 { (b + 32) as u8 } else { b }
}

/// The name `http::HeaderName::from_bytes` makes of the bytes: between one
/// and 65535 token characters, made lower-case; `None` when it refuses them.
pub open spec fn canonical_header_name(name: Seq<u8>) -> Option<Seq<u8>> {
    if 1 <= name.len() <= 65535 && forall|i: int| 0 <= i < name.len() ==> is_header_name_byte(#[trigger] name[i]) {
        Some(name.map_values(|b: u8| ascii_lower(b)))
    } else {
        None
    }
}

/// Parses a head with `httparse`, with room for `max_headers` headers.
///
/// The result is named, not stated: it is exactly what `Request::parse`
/// reports on a complete head, copied into owned bytes, and `None` for a
/// partial head or any parse error.
#[verifier::external_body]
fn parse_with_httparse(bytes: &[u8], max_headers: usize) -> (head: Option<RawHead>)
    ensures
        option_raw_view(head) == httparse_head(bytes@, max_headers as nat),
{
    let mut headers = vec![httparse::EMPTY_HEADER; max_headers];
    let mut parsed = httparse::Request::new(&mut headers);
    match parsed.parse(bytes) {
        Ok(httparse::Status::Complete(_)) => Some(RawHead {
            method: parsed.method.map(|m| m.as_bytes().to_vec()),
            target: parsed.path.map(|p| p.as_bytes().to_vec()),
            headers: parsed.headers.iter().map(|h| HeaderField { name: h.name.as_bytes().to_vec(), value: h.value.to_vec() }).collect(),
        }),
        Ok(httparse::Status::Partial) => None,
        Err(_) => None,
    }
}

pub open spec fn option_raw_view(o: Option<RawHead>) -> Option<RawHeadView> {
    match o {
        Some(h) => Some(h@),
        None => None,
    }
}

/// `http::HeaderName::from_bytes`, with the accepted name in its canonical
/// form: its source maps every byte through its table of token characters,
/// which lower-cases letters and refuses every other byte, and refuses an
/// empty name or one longer than 65535 bytes.
#[verifier::external_body]
fn header_name(name: &[u8]) -> (canonical: Option<Vec<u8>>)
    ensures
        option_bytes_view(canonical) == canonical_header_name(name@),
{
    axum::http::HeaderName::from_bytes(name).ok().map(|n| n.as_str().as_bytes().to_vec())
}

/// A byte `http::HeaderValue::from_bytes` admits: visible ASCII, space,
/// horizontal tab, or any byte above DEL.
pub open spec fn is_header_value_byte(b: u8) -> bool {
    (b >= 32 && b != 127) || b == 9
}

pub open spec fn is_header_value(v: Seq<u8>) -> bool {
    forall|i: int| 0 <= i < v.len() ==> is_header_value_byte(#[trigger] v[i])
}

/// `http::HeaderValue::from_bytes` accepts exactly the values whose every
/// byte its source's `is_valid` admits.
#[verifier::external_body]
fn header_value_accepted(value: &[u8]) -> (accepted: bool)
    ensures
        accepted == is_header_value(value@),
{
    axum::http::HeaderValue::from_bytes(value).is_ok()
}

/// The header map a list of raw fields becomes, or `None` when a name or value is refused.
pub open spec fn canonical_fields(raw: Seq<(Seq<u8>, Seq<u8>)>) -> Option<Seq<(Seq<u8>, Seq<u8>)>>
    decreases raw.len(),
{
    if raw.len() == 0 {
        Some(Seq::empty())
    } else {
        match canonical_fields(raw.drop_last()) {
            None => None,
            Some(prefix) => match canonical_header_name(raw.last().0) {
                None => None,
                Some(name) => {
                    if is_header_value(raw.last().1) {
                        Some(prefix.push((name, raw.last().1)))
                    } else {
                        None
                    }
                },
            },
        }
    }
}

/// A parsed request head: method, target, and canonical header fields.
pub struct ParsedRequestHead {
    pub method: Vec<u8>,
    pub target: Vec<u8>,
    pub headers: Vec<HeaderField>,
}

pub struct ParsedHeadView {
    pub method: Seq<u8>,
    pub target: Seq<u8>,
    pub headers: Seq<(Seq<u8>, Seq<u8>)>,
}

impl View for ParsedRequestHead {
    type V = ParsedHeadView;

    open spec fn view(&self) -> ParsedHeadView {
        ParsedHeadView {
            method: self.method@,
            target: self.target@,
            headers: fields_view(self.headers@),
        }
    }
}

pub open spec fn parsed_result_view(r: Result<ParsedRequestHead, RequestReadError>) -> Result<ParsedHeadView, RequestReadError> {
    match r {
        Ok(h) => Ok(h@),
        Err(e) => Err(e),
    }
}

/// What a head `httparse` reported (`None` when it reported none) becomes,
/// for a request line classified `line`.
pub open spec fn head_from_raw(raw: Option<RawHeadView>, line: RequestLineClassification) -> Result<ParsedHeadView, RequestReadError> {
    match raw {
        None => Err(RequestReadError::Invalid),
        Some(h) => match (h.method, h.target) {
            (Some(method), Some(target)) => {
                if target.len() > MAX_REQUEST_TARGET_BYTES {
                    Err(RequestReadError::TargetTooLong)
                } else if !uri_accepts(target) || !is_method_token(method) {
                    Err(RequestReadError::Invalid)
                } else {
                    match canonical_fields(h.headers) {
                        None => Err(RequestReadError::Invalid),
                        Some(headers) => {
                            if line == RequestLineClassification::Invalid {
                                Err(RequestReadError::Invalid)
                            } else {
                                Ok(ParsedHeadView { method, target, headers })
                            }
                        },
                    }
                }
            },
            _ => Err(RequestReadError::Invalid),
        },
    }
}

/// The outcome of parsing a completed head whose request line was classified `line`.
pub open spec fn parse_head(bytes: Seq<u8>, line: RequestLineClassification) -> Result<ParsedHeadView, RequestReadError> {
    match raw_header_bytes(bytes) {
        Err(e) => Err(e),
        Ok(raw) => {
            if raw > MAX_REQUEST_HEADER_BYTES {
                Err(RequestReadError::HeadersTooLarge)
            } else {
                head_from_raw(httparse_head(bytes, (raw / 4) as nat), line)
            }
        },
    }
}

fn canonicalize_fields(raw: &Vec<HeaderField>) -> (r: Option<Vec<HeaderField>>)
    ensures
        match r {
            Some(fields) => canonical_fields(fields_view(raw@)) == Some(fields_view(fields@)),
            None => canonical_fields(fields_view(raw@)) is None,
        },
{
    let mut out: Vec<HeaderField> = Vec::new();
    let mut i: usize = 0;
    while i < raw.len()
        invariant
            i <= raw@.len(),
            canonical_fields(fields_view(raw@).subrange(0, i as int)) == Some(fields_view(out@)),
        decreases raw@.len() - i,
    {
        let ghost prefix = fields_view(raw@).subrange(0, i as int + 1);
        proof {
            assert(prefix.drop_last() =~= fields_view(raw@).subrange(0, i as int));
            assert(prefix.last() == raw@[i as int]@);
        }
        let field = &raw[i];
        let name = match header_name(field.name.as_slice()) {
            Some(name) => name,
            None => {
                proof {
                    lemma_canonical_fields_none_extends(fields_view(raw@), i as int + 1);
                }
                return None;
            },
        };
        if !header_value_accepted(field.value.as_slice()) {
            proof {
                lemma_canonical_fields_none_extends(fields_view(raw@), i as int + 1);
            }
            return None;
        }
        let value = crate::bytes::copy_range(field.value.as_slice(), 0, field.value.len());
        proof {
            assert(field.value@.subrange(0, field.value@.len() as int) =~= field.value@);
        }
        let ghost before = fields_view(out@);
        out.push(HeaderField { name, value });
        proof {
            assert(fields_view(out@) =~= before.push((name@, value@)));
        }
        i = i + 1;
    }
    proof {
        assert(fields_view(raw@).subrange(0, raw@.len() as int) =~= fields_view(raw@));
    }
    Some(out)
}

proof fn lemma_canonical_fields_none_extends(raw: Seq<(Seq<u8>, Seq<u8>)>, k: int)
    requires
        0 <= k <= raw.len(),
        canonical_fields(raw.subrange(0, k)) is None,
    ensures
        canonical_fields(raw) is None,
    decreases raw.len() - k,
{
    if k < raw.len() {
        let t = raw.subrange(0, k + 1);
        assert(t.drop_last() =~= raw.subrange(0, k));
        lemma_canonical_fields_none_extends(raw, k + 1);
    } else {
        assert(raw.subrange(0, k) =~= raw);
    }
}

/// Parses a completed head into its method, target, and canonical header fields.
pub fn parse_http_request(bytes: &[u8], request_line: RequestLineClassification) -> (r: Result<ParsedRequestHead, RequestReadError>)
    ensures
        parsed_result_view(r) == parse_head(bytes@, request_line),
{
    let raw_header_bytes = match raw_header_section_bytes(bytes) {
        Ok(n) => n,
        Err(e) => return Err(e),
    };
    if raw_header_bytes > MAX_REQUEST_HEADER_BYTES {
        return Err(RequestReadError::HeadersTooLarge);
    }
    request_head_from_raw(parse_with_httparse(bytes, raw_header_bytes / 4), request_line)
}

/// Turns the head `httparse` reported into the request head: the target
/// within its bound and accepted as a URI, a token method, canonical header
/// fields, and a request line that classified.
pub fn request_head_from_raw(raw: Option<RawHead>, request_line: RequestLineClassification) -> (r: Result<ParsedRequestHead, RequestReadError>)
    ensures
        parsed_result_view(r) == head_from_raw(option_raw_view(raw), request_line),
{
    let head = match raw {
        Some(head) => head,
        None => return Err(RequestReadError::Invalid),
    };
    let method = match head.method {
        Some(method) => method,
        None => return Err(RequestReadError::Invalid),
    };
    let target = match head.target {
        Some(target) => target,
        None => return Err(RequestReadError::Invalid),
    };
    if target.len() > MAX_REQUEST_TARGET_BYTES {
        return Err(RequestReadError::TargetTooLong);
    }
    if !target_parses(target.as_slice()) {
        return Err(RequestReadError::Invalid);
    }
    if !method_accepts(method.as_slice()) {
        return Err(RequestReadError::Invalid);
    }
    let headers = match canonicalize_fields(&head.headers) {
        Some(headers) => headers,
        None => return Err(RequestReadError::Invalid),
    };
    match request_line {
        RequestLineClassification::Get
        | RequestLineClassification::Put
        | RequestLineClassification::OtherMethod => {},
        RequestLineClassification::Invalid => return Err(RequestReadError::Invalid),
    }
    Ok(ParsedRequestHead { method, target, headers })
}

} // verus!

verus! {

pub open spec fn content_length_name() -> Seq<u8> {
    seq![99u8, 111u8, 110u8, 116u8, 101u8, 110u8, 116u8, 45u8, 108u8, 101u8, 110u8, 103u8, 116u8, 104u8]
}

pub open spec fn transfer_encoding_name() -> Seq<u8> {
    seq![116u8, 114u8, 97u8, 110u8, 115u8, 102u8, 101u8, 114u8, 45u8, 101u8, 110u8, 99u8, 111u8, 100u8, 105u8, 110u8, 103u8]
}

pub open spec fn expect_name() -> Seq<u8> {
    seq![101u8, 120u8, 112u8, 101u8, 99u8, 116u8]
}

/// Whether some field carries the (canonical) name.
pub open spec fn has_field(headers: Seq<(Seq<u8>, Seq<u8>)>, name: Seq<u8>) -> bool {
    exists|i: int| 0 <= i < headers.len() && (#[trigger] headers[i]).0 == name
}

/// The values of every `Content-Length` field, in order.
pub open spec fn content_lengths(headers: Seq<(Seq<u8>, Seq<u8>)>) -> Seq<Seq<u8>>
    decreases headers.len(),
{
    if headers.len() == 0 {
        Seq::empty()
    } else {
        let prefix = content_lengths(headers.drop_last());
        if headers.last().0 == content_length_name() {
            prefix.push(headers.last().1)
        } else {
            prefix
        }
    }
}

/// The exact number of body bytes a completed head declares.
///
/// Only `PUT` may carry a body, through exactly one canonical
/// `Content-Length` within `max_body_bytes`; every other method must declare
/// no body at all; chunked framing and `Expect` are never supported.
pub open spec fn declared_body_length(method: Seq<u8>, headers: Seq<(Seq<u8>, Seq<u8>)>, max_body_bytes: nat) -> Result<Option<nat>, RequestReadError> {
    if has_field(headers, transfer_encoding_name()) || has_field(headers, expect_name()) {
        Err(RequestReadError::Invalid)
    } else if method != put_bytes() {
        let lengths = content_lengths(headers);
        if exists|i: int| 0 <= i < lengths.len() && content_length_value(#[trigger] lengths[i]) != Some(0nat) {
            Err(RequestReadError::Invalid)
        } else {
            Ok(None)
        }
    } else {
        let lengths = content_lengths(headers);
        if lengths.len() != 1 {
            Err(RequestReadError::Invalid)
        } else {
            match canonical_length_value(lengths[0]) {
                None => Err(RequestReadError::Invalid),
                Some(n) => {
                    if n > max_body_bytes {
                        Err(RequestReadError::Invalid)
                    } else {
                        Ok(Some(n))
                    }
                },
            }
        }
    }
}

pub open spec fn length_result_view(r: Result<Option<usize>, RequestReadError>) -> Result<Option<nat>, RequestReadError> {
    match r {
        Ok(Some(n)) => Ok(Some(n as nat)),
        Ok(None) => Ok(None),
        Err(e) => Err(e),
    }
}

fn name_is(name: &[u8], lit: &[u8]) -> (r: bool)
    ensures
        r == (name@ == lit@),
{
    crate::bytes::bytes_equal(name, lit)
}

/// Returns the exact number of body bytes a completed head declared.
pub fn declared_request_body_length(method: &[u8], headers: &Vec<HeaderField>, max_body_bytes: usize) -> (r: Result<Option<usize>, RequestReadError>)
    ensures
        length_result_view(r) == declared_body_length(method@, fields_view(headers@), max_body_bytes as nat),
{
    let content_length: [u8; 14] = [99, 111, 110, 116, 101, 110, 116, 45, 108, 101, 110, 103, 116, 104];
    let transfer_encoding: [u8; 17] = [116, 114, 97, 110, 115, 102, 101, 114, 45, 101, 110, 99, 111, 100, 105, 110, 103];
    let expect: [u8; 6] = [101, 120, 112, 101, 99, 116];
    proof {
        assert(content_length@ =~= content_length_name());
        assert(transfer_encoding@ =~= transfer_encoding_name());
        assert(expect@ =~= expect_name());
    }
    let ghost fields = fields_view(headers@);
    // Framing that is never supported.
    let mut i: usize = 0;
    while i < headers.len()
        invariant
            i <= headers@.len(),
            fields == fields_view(headers@),
            transfer_encoding@ == transfer_encoding_name(),
            expect@ == expect_name(),
            forall|k: int| 0 <= k < i ==> (#[trigger] fields[k]).0 != transfer_encoding_name() && fields[k].0 != expect_name(),
        decreases headers@.len() - i,
    {
        let name = headers[i].name.as_slice();
        if name_is(name, transfer_encoding.as_slice()) || name_is(name, expect.as_slice()) {
            proof {
                assert(fields[i as int].0 == headers@[i as int].name@);
                assert(has_field(fields, transfer_encoding_name()) || has_field(fields, expect_name()));
            }
            return Err(RequestReadError::Invalid);
        }
        proof {
            assert(fields[i as int].0 == headers@[i as int].name@);
        }
        i = i + 1;
    }
    // Every `Content-Length` value, in order.
    let mut lengths: Vec<Vec<u8>> = Vec::new();
    let mut j: usize = 0;
    while j < headers.len()
        invariant
            j <= headers@.len(),
            fields == fields_view(headers@),
            content_length@ == content_length_name(),
            lengths@.len() == content_lengths(fields.subrange(0, j as int)).len(),
            forall|k: int| 0 <= k < lengths@.len() ==> (#[trigger] lengths@[k])@ == content_lengths(fields.subrange(0, j as int))[k],
        decreases headers@.len() - j,
    {
        let ghost prefix = fields.subrange(0, j as int + 1);
        proof {
            assert(prefix.drop_last() =~= fields.subrange(0, j as int));
            assert(prefix.last() == headers@[j as int]@);
        }
        if name_is(headers[j].name.as_slice(), content_length.as_slice()) {
            let value = crate::bytes::copy_range(headers[j].value.as_slice(), 0, headers[j].value.len());
            proof {
                assert(headers@[j as int].value@.subrange(0, headers@[j as int].value@.len() as int) =~= headers@[j as int].value@);
            }
            lengths.push(value);
        }
        j = j + 1;
    }
    proof {
        assert(fields.subrange(0, headers@.len() as int) =~= fields);
    }
    let ghost all = content_lengths(fields);
    if !is_put(method) {
        let mut k: usize = 0;
        while k < lengths.len()
            invariant
                k <= lengths@.len(),
                lengths@.len() == all.len(),
                all == content_lengths(fields),
                fields == fields_view(headers@),
                method@ != put_bytes(),
                !has_field(fields, transfer_encoding_name()),
                !has_field(fields, expect_name()),
                forall|m: int| 0 <= m < lengths@.len() ==> (#[trigger] lengths@[m])@ == all[m],
                forall|m: int| 0 <= m < k ==> content_length_value(#[trigger] all[m]) == Some(0nat),
            decreases lengths@.len() - k,
        {
            match content_length_digits(lengths[k].as_slice()) {
                Some(0) => {},
                _ => {
                    proof {
                        assert(lengths@[k as int]@ == all[k as int]);
                        assert(content_length_value(all[k as int]) != Some(0nat));
                    }
                    return Err(RequestReadError::Invalid);
                },
            }
            proof {
                assert(lengths@[k as int]@ == all[k as int]);
            }
            k = k + 1;
        }
        return Ok(None);
    }
    if lengths.len() != 1 {
        return Err(RequestReadError::Invalid);
    }
    proof {
        assert(lengths@[0]@ == all[0]);
    }
    let length = match canonical_content_length(lengths[0].as_slice()) {
        Some(length) => length,
        None => return Err(RequestReadError::Invalid),
    };
    if length > max_body_bytes {
        return Err(RequestReadError::Invalid);
    }
    Ok(Some(length))
}

} // verus!

verus! {

/// The request-line state after the listener observed every byte of `bytes`.
pub open spec fn line_state_of(bytes: Seq<u8>) -> RequestLineState
    decreases bytes.len(),
{
    if bytes.len() == 0 {
        RequestLineState::Method
    } else {
        observe_next(line_state_of(bytes.drop_last()), bytes.last(), bytes)
    }
}

/// Whether the target outgrew its bound at any point while reading `bytes`.
pub open spec fn target_too_long_of(bytes: Seq<u8>) -> bool
    decreases bytes.len(),
{
    if bytes.len() == 0 {
        false
    } else {
        target_too_long_of(bytes.drop_last()) || target_overlong(line_state_of(bytes))
    }
}

pub open spec fn blank_line() -> Seq<u8> {
    seq![13u8, 10u8, 13u8, 10u8]
}

/// The target counter never exceeds the bytes read.
pub proof fn lemma_target_count_bounded(bytes: Seq<u8>)
    ensures
        line_state_of(bytes) matches RequestLineState::Target(n) ==> n < bytes.len(),
    decreases bytes.len(),
{
    if bytes.len() > 0 {
        lemma_target_count_bounded(bytes.drop_last());
    }
}

/// What the head reader reports after one more byte.
pub enum HeadStep {
    /// More bytes are needed.
    Pending,
    /// The head can never complete; the connection is answered with this error.
    Incomplete(RequestReadError),
    /// The head completed, and parsed to this result.
    Completed(Result<ParsedRequestHead, RequestReadError>),
}

pub enum HeadStepView {
    Pending,
    Incomplete(RequestReadError),
    Completed(Result<ParsedHeadView, RequestReadError>),
}

impl View for HeadStep {
    type V = HeadStepView;

    open spec fn view(&self) -> HeadStepView {
        match self {
            HeadStep::Pending => HeadStepView::Pending,
            HeadStep::Incomplete(e) => HeadStepView::Incomplete(*e),
            HeadStep::Completed(r) => HeadStepView::Completed(parsed_result_view(*r)),
        }
    }
}

/// The reader's answer to `byte` after it had received `previous`.
pub open spec fn head_step(previous: Seq<u8>, byte: u8) -> HeadStepView {
    if byte == lf() && (previous.len() == 0 || previous.last() != cr()) {
        HeadStepView::Incomplete(RequestReadError::Invalid)
    } else {
        let bytes = previous.push(byte);
        if bytes.len() > MAX_REQUEST_HEAD_BYTES {
            HeadStepView::Incomplete(limit_error_for(line_state_of(bytes), bytes))
        } else if ends_with(bytes, blank_line()) {
            HeadStepView::Completed(
                if target_too_long_of(bytes) {
                    Err(RequestReadError::TargetTooLong)
                } else {
                    parse_head(bytes, retained_classification(line_state_of(bytes)))
                },
            )
        } else {
            HeadStepView::Pending
        }
    }
}

/// Reads one request head a byte at a time within its bounds.
pub struct HeadReader {
    bytes: Vec<u8>,
    line: RequestLineState,
    target_too_long: bool,
}

impl HeadReader {
    /// The reader still expects bytes, and its state matches what it received.
    pub closed spec fn wf(&self) -> bool {
        &&& self.bytes@.len() <= MAX_REQUEST_HEAD_BYTES
        &&& self.line == line_state_of(self.bytes@)
        &&& self.target_too_long == target_too_long_of(self.bytes@)
        &&& !ends_with(self.bytes@, blank_line())
    }

    /// The bytes received so far.
    pub closed spec fn received(&self) -> Seq<u8> {
        self.bytes@
    }

    /// A reader that has received nothing.
    pub fn new() -> (reader: Self)
        ensures
            reader.wf(),
            reader.received() == Seq::<u8>::empty(),
    {
        HeadReader {
            bytes: Vec::with_capacity(MAX_REQUEST_HEAD_BYTES),
            line: RequestLineState::Method,
            target_too_long: false,
        }
    }

    /// The stream ended, or failed, before the head completed: the head can
    /// never complete, and the request is invalid.
    pub fn stream_ended(&self) -> (step: HeadStep)
        ensures
            step@ == HeadStepView::Incomplete(RequestReadError::Invalid),
    {
        HeadStep::Incomplete(RequestReadError::Invalid)
    }

    /// Takes one more byte of the head.
    pub fn push(&mut self, byte: u8) -> (step: HeadStep)
        requires
            old(self).wf(),
        ensures
            step@ == head_step(old(self).received(), byte),
            step is Pending ==> final(self).wf() && final(self).received() == old(self).received().push(byte),
    {
        let n = self.bytes.len();
        if byte == 10 && (n == 0 || self.bytes[n - 1] != 13) {
            return HeadStep::Incomplete(RequestReadError::Invalid);
        }
        let ghost previous = self.bytes@;
        self.bytes.push(byte);
        proof {
            lemma_target_count_bounded(previous);
            assert(self.bytes@.drop_last() =~= previous);
        }
        let overlong = self.line.observe(byte, self.bytes.as_slice());
        self.target_too_long = self.target_too_long || overlong;
        if self.bytes.len() > MAX_REQUEST_HEAD_BYTES {
            return HeadStep::Incomplete(self.line.limit_error(self.bytes.as_slice()));
        }
        if crate::bytes::ends_with_blank_line(self.bytes.as_slice()) {
            let request = if self.target_too_long {
                Err(RequestReadError::TargetTooLong)
            } else {
                parse_http_request(self.bytes.as_slice(), self.line.completed_classification())
            };
            return HeadStep::Completed(request);
        }
        HeadStep::Pending
    }
}

/// Only `PUT` may carry a body, and a declared body never exceeds the bound
/// it was admitted under.
pub proof fn lemma_only_put_carries_a_bounded_body(method: Seq<u8>, headers: Seq<(Seq<u8>, Seq<u8>)>, max_body_bytes: nat)
    ensures
        declared_body_length(method, headers, max_body_bytes) matches Ok(Some(n)) ==> {
            &&& method == put_bytes()
            &&& n <= max_body_bytes
        },
{
}

/// A line feed not preceded by a carriage return ends the read as invalid
/// at once, however much of the head was received.
pub proof fn lemma_bare_line_feed_is_refused(previous: Seq<u8>)
    requires
        previous.len() == 0 || previous.last() != cr(),
    ensures
        head_step(previous, lf()) == HeadStepView::Incomplete(RequestReadError::Invalid),
{
}

} // verus!
