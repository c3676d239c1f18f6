use weavelit_server::admission::{RateLimiter, SourceAddress};
use std::cell::Cell;

use weavelit_server::http_head::RequestReadError;
use weavelit_server::lifecycle_gate::ResponseWriteAcknowledgement;
use weavelit_server::request_flow::{acknowledge_written, request_step, RequestEvent, RequestStage, RequestStep};
use weavelit_server::response::{
    compose_module_response, finish_module_response, fixed_json_body, json_error_body,
    rate_limited_response, render_head, response_for_request_read_error, without_body_for_head,
    AllowedMethod, BoundedResponse, FixedErrorCode, ModuleResponseStep, ResponseProfile,
};

type Response = BoundedResponse<()>;

fn respond(step: RequestStep<()>) -> Response {
    match step {
        RequestStep::Respond(response) => response,
        RequestStep::Next(stage) => panic!("expected a response, got {stage:?}"),
    }
}

fn next(step: RequestStep<()>) -> RequestStage {
    match step {
        RequestStep::Next(stage) => stage,
        RequestStep::Respond(response) => panic!("expected a stage, got status {}", response.status),
    }
}

#[test]
fn profiles_select_media_type_bound_and_security_headers() {
    assert_eq!(ResponseProfile::Json.media_type(), "application/json; charset=utf-8");
    assert_eq!(ResponseProfile::Css.media_type(), "text/css; charset=utf-8");
    assert_eq!(ResponseProfile::Json.max_body_bytes(), 128);
    assert_eq!(ResponseProfile::TypedJson.max_body_bytes(), 512);
    assert_eq!(ResponseProfile::Html.max_body_bytes(), 16 * 1024);
    assert_eq!(ResponseProfile::JavaScript.max_body_bytes(), 256 * 1024);
    assert_eq!(ResponseProfile::Css.max_body_bytes(), 64 * 1024);
    assert_eq!(ResponseProfile::TypedJson.security_headers(), "");
    assert!(ResponseProfile::Html.security_headers().contains("X-Content-Type-Options: nosniff\r\n"));
    assert_eq!(
        ResponseProfile::from_media_type(b"text/html; charset=utf-8"),
        Some(ResponseProfile::Html)
    );
    assert_eq!(ResponseProfile::from_media_type(b"text/html"), None);
}

#[test]
fn allow_headers_are_fixed_lines() {
    assert_eq!(AllowedMethod::Get.allow_header(), "Allow: GET\r\n");
    assert_eq!(AllowedMethod::Put.allow_header(), "Allow: PUT\r\n");
    assert_eq!(AllowedMethod::from_header_value(b"PUT"), Some(AllowedMethod::Put));
    assert_eq!(AllowedMethod::from_header_value(b"GET, PUT"), None);
}

#[test]
fn only_allowlisted_json_bodies_survive() {
    assert_eq!(fixed_json_body(b"{\"error\":\"restore_pending\"}"), Some("{\"error\":\"restore_pending\"}"));
    assert_eq!(
        fixed_json_body(b"{\"lifecycle\":\"uninitialized\",\"database_selected\":true}"),
        Some("{\"lifecycle\":\"uninitialized\",\"database_selected\":true}")
    );
    assert_eq!(fixed_json_body(b"{\"error\":\"restore_pending\"} "), None);
    assert_eq!(fixed_json_body(b""), None);
    for code in [
        FixedErrorCode::BadRequest,
        FixedErrorCode::MethodNotAllowed,
        FixedErrorCode::NotFound,
        FixedErrorCode::RequestHeaderFieldsTooLarge,
        FixedErrorCode::UriTooLong,
    ] {
        let body = json_error_body(code);
        assert_eq!(fixed_json_body(body.as_bytes()), Some(body));
    }
    assert_eq!(json_error_body(FixedErrorCode::NotFound), "{\"error\":\"not_found\"}");
}

#[test]
fn read_errors_have_fixed_responses() {
    let cases = [
        (RequestReadError::TimedOut, 408, "{\"error\":\"request_timeout\"}"),
        (RequestReadError::TargetTooLong, 414, "{\"error\":\"uri_too_long\"}"),
        (RequestReadError::MethodNotAllowed, 405, "{\"error\":\"method_not_allowed\"}"),
        (RequestReadError::HeadersTooLarge, 431, "{\"error\":\"request_header_fields_too_large\"}"),
        (RequestReadError::BodyUnavailable, 503, "{\"error\":\"service_unavailable\"}"),
        (RequestReadError::Invalid, 400, "{\"error\":\"bad_request\"}"),
    ];
    for (error, status, body) in cases {
        let response: Response = response_for_request_read_error(error);
        assert_eq!(response.status, status);
        assert_eq!(response.body, body.as_bytes().to_vec());
        assert_eq!(response.profile, ResponseProfile::Json);
    }
    let not_allowed: Response = response_for_request_read_error(RequestReadError::MethodNotAllowed);
    assert_eq!(not_allowed.allow, Some(AllowedMethod::Get));
}

#[test]
fn the_rendered_head_carries_only_listener_owned_lines() {
    let mut response: Response = response_for_request_read_error(RequestReadError::MethodNotAllowed);
    response.cookies = Some(b"Set-Cookie: a=b\r\n".to_vec());
    let head = render_head(&response);
    assert_eq!(
        head,
        b"HTTP/1.1 405 \r\nContent-Type: application/json; charset=utf-8\r\nAllow: GET\r\nSet-Cookie: a=b\r\n\r\n".to_vec()
    );
}

#[test]
fn a_head_response_keeps_its_status_without_a_body() {
    let response: Response = rate_limited_response();
    let stripped = without_body_for_head(response, true);
    assert_eq!(stripped.status, 429);
    assert!(stripped.body.is_empty());
    let kept = without_body_for_head(rate_limited_response::<()>(), false);
    assert_eq!(kept.body, b"{\"error\":\"rate_limited\"}".to_vec());
}

#[test]
fn a_typed_envelope_over_its_bound_is_redacted() {
    let oversized = vec![b'x'; 513];
    match compose_module_response::<()>(200, None, None, None, Some(oversized), None) {
        ModuleResponseStep::Done(response) => {
            assert_eq!(response.status, 200);
            assert_eq!(response.body, b"{\"error\":\"gateway_timeout\"}".to_vec());
            assert_eq!(response.profile, ResponseProfile::Json);
        }
        ModuleResponseStep::ReadBody { .. } => panic!("a typed envelope is decided at once"),
    }
}

#[test]
fn a_typed_envelope_carries_its_cookies_and_action() {
    match compose_module_response(201, Some(&b"PUT"[..]), Some(Some(b"Set-Cookie: s=1\r\n".to_vec())), Some(7_u8), Some(b"{}".to_vec()), None) {
        ModuleResponseStep::Done(response) => {
            assert_eq!(response.profile, ResponseProfile::TypedJson);
            assert_eq!(response.body, b"{}".to_vec());
            assert_eq!(response.allow, Some(AllowedMethod::Put));
            assert_eq!(response.cookies, Some(b"Set-Cookie: s=1\r\n".to_vec()));
            assert_eq!(response.acknowledgement, Some(7));
        }
        ModuleResponseStep::ReadBody { .. } => panic!("a typed envelope is decided at once"),
    }
}

#[test]
fn a_non_typed_module_response_with_an_action_is_redacted() {
    match compose_module_response(200, None, None, Some(1_u8), None, Some(&b"text/html; charset=utf-8"[..])) {
        ModuleResponseStep::Done(response) => {
            assert_eq!(response.body, b"{\"error\":\"gateway_timeout\"}".to_vec());
            assert_eq!(response.acknowledgement, None);
        }
        ModuleResponseStep::ReadBody { .. } => panic!("an action outside the typed profile is redacted"),
    }
}

#[test]
fn a_module_body_is_read_under_its_profile_then_finished() {
    match compose_module_response::<()>(200, None, None, None, None, Some(&b"text/css; charset=utf-8"[..])) {
        ModuleResponseStep::ReadBody { profile, allow } => {
            assert_eq!(profile, ResponseProfile::Css);
            assert_eq!(allow, None);
        }
        ModuleResponseStep::Done(_) => panic!("a known media type is read"),
    }
    let finished: Response = finish_module_response(200, None, ResponseProfile::Css, Some(b"a{}".to_vec()));
    assert_eq!(finished.body, b"a{}".to_vec());
    let unread: Response = finish_module_response(200, None, ResponseProfile::Css, None);
    assert_eq!(unread.body, b"{\"error\":\"gateway_timeout\"}".to_vec());
    let unlisted: Response =
        finish_module_response(409, None, ResponseProfile::Json, Some(b"{\"error\":\"other\"}".to_vec()));
    assert_eq!(unlisted.status, 409);
    assert_eq!(unlisted.body, b"{\"error\":\"gateway_timeout\"}".to_vec());
}

#[test]
fn an_unparsed_head_still_consumes_rate_quota() {
    let stage = next(request_step(RequestStage::ReadHead, RequestEvent::HeadUnparsed(RequestReadError::Invalid)));
    assert_eq!(stage, RequestStage::RateAfterUnparsedHead(RequestReadError::Invalid));
    let refused = respond(request_step(stage, RequestEvent::RateChecked { admitted: false }));
    assert_eq!(refused.status, 429);
    let admitted = respond(request_step(stage, RequestEvent::RateChecked { admitted: true }));
    assert_eq!(admitted.status, 400);
}

#[test]
fn an_incomplete_head_consumes_no_quota() {
    let response = respond(request_step(RequestStage::ReadHead, RequestEvent::HeadIncomplete(RequestReadError::TimedOut)));
    assert_eq!(response.status, 408);
}

#[test]
fn a_rate_limited_head_request_has_an_empty_body() {
    let stage = next(request_step(RequestStage::ReadHead, RequestEvent::HeadParsed { is_head: true }));
    let response = respond(request_step(stage, RequestEvent::RateChecked { admitted: false }));
    assert_eq!(response.status, 429);
    assert!(response.body.is_empty());
}

#[test]
fn an_admitted_request_walks_the_whole_chain() {
    let mut stage = RequestStage::ReadHead;
    stage = next(request_step(stage, RequestEvent::HeadParsed { is_head: false }));
    stage = next(request_step(stage, RequestEvent::RateChecked { admitted: true }));
    assert_eq!(stage, RequestStage::CheckFraming { is_head: false });
    stage = next(request_step(stage, RequestEvent::Framed(Ok(()))));
    stage = next(request_step(stage, RequestEvent::Validated(Ok(()))));
    stage = next(request_step(stage, RequestEvent::PermitAdmitted));
    stage = next(request_step(stage, RequestEvent::BodyRead));
    assert_eq!(stage, RequestStage::Dispatch { is_head: false });
    let routed: Response = finish_module_response(200, None, ResponseProfile::Html, Some(b"<p>".to_vec()));
    let response = respond(request_step(stage, RequestEvent::Dispatched(routed)));
    assert_eq!(response.body, b"<p>".to_vec());
}

#[test]
fn stage_timeouts_use_fixed_responses() {
    let permit = respond(request_step(RequestStage::AcquirePermit { is_head: false }, RequestEvent::PermitTimedOut));
    assert_eq!(permit.status, 504);
    let body = respond(request_step(RequestStage::ReadBody { is_head: false }, RequestEvent::BodyTimedOut));
    assert_eq!(body.status, 408);
    let dispatch = respond(request_step(RequestStage::Dispatch { is_head: true }, RequestEvent::DispatchTimedOut));
    assert_eq!(dispatch.status, 504);
    assert!(dispatch.body.is_empty());
    let framing = respond(request_step(
        RequestStage::CheckFraming { is_head: false },
        RequestEvent::Framed(Err(RequestReadError::HeadersTooLarge)),
    ));
    assert_eq!(framing.status, 431);
}

#[test]
fn an_acknowledgement_runs_its_action_at_most_once() {
    let runs = Cell::new(0_u32);
    let mut acknowledgement = ResponseWriteAcknowledgement::new(|| runs.set(runs.get() + 1));
    assert!(acknowledgement.run());
    assert!(!acknowledgement.run());
    assert_eq!(runs.get(), 1);
}

#[test]
fn an_unwritten_response_runs_no_action() {
    let runs = Cell::new(0_u32);
    let acknowledgement = ResponseWriteAcknowledgement::new(|| runs.set(runs.get() + 1));
    assert!(!acknowledge_written(Some(acknowledgement), false));
    assert_eq!(runs.get(), 0);
    let written = ResponseWriteAcknowledgement::new(|| runs.set(runs.get() + 1));
    assert!(acknowledge_written(Some(written), true));
    assert_eq!(runs.get(), 1);
}

#[test]
fn module_bodies_are_bounded_by_their_profile() {
    let at_limit: Response = finish_module_response(200, None, ResponseProfile::Html, Some(vec![b'a'; 16384]));
    assert_eq!(at_limit.profile, ResponseProfile::Html);
    assert_eq!(at_limit.body.len(), 16384);
    let over: Response = finish_module_response(200, None, ResponseProfile::Html, Some(vec![b'a'; 16385]));
    assert_eq!(over.status, 200);
    assert_eq!(over.profile, ResponseProfile::Json);
    assert_eq!(over.allow, None);
    assert_eq!(over.body, b"{\"error\":\"gateway_timeout\"}".to_vec());
    let over_with_allow: Response =
        finish_module_response(405, Some(AllowedMethod::Put), ResponseProfile::Css, Some(vec![b'a'; 64 * 1024 + 1]));
    assert_eq!(over_with_allow.allow, Some(AllowedMethod::Put));
    assert_eq!(over_with_allow.body, b"{\"error\":\"gateway_timeout\"}".to_vec());
}

#[test]
fn a_dispatch_timeout_answers_with_the_fixed_profile() {
    let response = respond(request_step(RequestStage::Dispatch { is_head: false }, RequestEvent::DispatchTimedOut));
    assert_eq!(response.profile, ResponseProfile::Json);
    assert_eq!(response.body, b"{\"error\":\"gateway_timeout\"}".to_vec());
}

#[test]
fn completed_heads_share_one_burst_and_incomplete_ones_cost_nothing() {
    let mut limiter = RateLimiter::new();
    let source = SourceAddress::V4(0x7f00_0001);
    let now = 1_000;
    // Heads that stopped before completing never reach a rate stage.
    for error in [RequestReadError::Invalid, RequestReadError::TimedOut] {
        let response = respond(request_step(RequestStage::ReadHead, RequestEvent::HeadIncomplete(error)));
        assert!(response.status == 400 || response.status == 408);
    }
    let completed: [RequestEvent<()>; 5] = [
        RequestEvent::HeadUnparsed(RequestReadError::MethodNotAllowed),
        RequestEvent::HeadUnparsed(RequestReadError::Invalid),
        RequestEvent::HeadUnparsed(RequestReadError::TargetTooLong),
        RequestEvent::HeadUnparsed(RequestReadError::HeadersTooLarge),
        RequestEvent::HeadParsed { is_head: false },
    ];
    let mut answered = Vec::new();
    for index in 0..12 {
        let event = match &completed[index % completed.len()] {
            RequestEvent::HeadUnparsed(error) => RequestEvent::HeadUnparsed(*error),
            _ => RequestEvent::HeadParsed { is_head: false },
        };
        let stage = next(request_step(RequestStage::ReadHead, event));
        let admitted = limiter.allows(source, now);
        match request_step::<()>(stage, RequestEvent::RateChecked { admitted }) {
            RequestStep::Respond(response) => answered.push(response.status),
            RequestStep::Next(_) => answered.push(200),
        }
    }
    assert!(!answered.contains(&429));
    let stage = next(request_step(RequestStage::ReadHead, RequestEvent::HeadParsed { is_head: true }));
    let refused = respond(request_step(stage, RequestEvent::RateChecked { admitted: limiter.allows(source, now) }));
    assert_eq!(refused.status, 429);
    assert!(refused.body.is_empty());
}
