//! The ordered admission chain one request passes through on the restricted
//! listener: head read, rate admission, framing, pre-body validation, the
//! admission permit, the body read, and dispatch. The listener performs each
//! stage and reports how it ended; the decisions are made here.
use vstd::prelude::*;
use crate::http_head::RequestReadError;
use crate::response::{
    BoundedResponse, gateway_timeout_response, is_fixed_response, rate_limited_response,
    read_error_response_matches, request_timeout_response, response_for_request_read_error,
    without_body_for_head,
};
use crate::lifecycle_gate::ResponseWriteAcknowledgement;

verus! {

/// The stage a request is in; `is_head` records a `HEAD` request once its
/// head has parsed.
#[derive(Clone, Copy, Debug, PartialEq, Eq, Structural)]
pub enum RequestStage {
    /// Read the head within its own absolute deadline.
    ReadHead,
    /// A completed head that did not parse still consumes rate quota.
    RateAfterUnparsedHead(RequestReadError),
    /// Admit the parsed head against the source's rate limit.
    AdmitRate { is_head: bool },
    /// Classify the route and check the declared framing.
    CheckFraming { is_head: bool },
    /// Run the route's registered pre-body validation.
    Validate { is_head: bool },
    /// Wait, within the processing budget, for the route's admission permit.
    AcquirePermit { is_head: bool },
    /// Read the admitted body within its capped deadline.
    ReadBody { is_head: bool },
    /// Dispatch to the mounted router within the processing deadline.
    Dispatch { is_head: bool },
}

/// How the stage the listener performed ended.
pub enum RequestEvent<A> {
    /// The head read stopped before a complete head.
    HeadIncomplete(RequestReadError),
    /// A complete head that did not parse.
    HeadUnparsed(RequestReadError),
    /// A complete head that parsed.
    HeadParsed { is_head: bool },
    /// The source's rate limit was consulted.
    RateChecked { admitted: bool },
    /// Route classification and framing.
    Framed(Result<(), RequestReadError>),
    /// Pre-body validation, with the rejection's own response.
    Validated(Result<(), BoundedResponse<A>>),
    PermitAdmitted,
    /// The admitted check rejected the request, with its response.
    PermitRejected(BoundedResponse<A>),
    PermitTimedOut,
    BodyRead,
    BodyFailed(RequestReadError),
    BodyTimedOut,
    /// The router answered within the processing deadline.
    Dispatched(BoundedResponse<A>),
    DispatchTimedOut,
}

/// What the listener does next.
pub enum RequestStep<A> {
    Next(RequestStage),
    Respond(BoundedResponse<A>),
}

/// The event is one the stage can end with.
pub open spec fn event_fits<A>(stage: RequestStage, event: RequestEvent<A>) -> bool {
    match stage {
        RequestStage::ReadHead => event is HeadIncomplete || event is HeadUnparsed || event is HeadParsed,
        RequestStage::RateAfterUnparsedHead(_) => event is RateChecked,
        RequestStage::AdmitRate { .. } => event is RateChecked,
        RequestStage::CheckFraming { .. } => event is Framed,
        RequestStage::Validate { .. } => event is Validated,
        RequestStage::AcquirePermit { .. } => event is PermitAdmitted || event is PermitRejected || event is PermitTimedOut,
        RequestStage::ReadBody { .. } => event is BodyRead || event is BodyFailed || event is BodyTimedOut,
        RequestStage::Dispatch { .. } => event is Dispatched || event is DispatchTimedOut,
    }
}

/// The fixed rate-limited response, without a body for a `HEAD` request.
pub open spec fn is_rate_limited_response<A>(r: BoundedResponse<A>, is_head: bool) -> bool {
    &&& r.status == 429
    &&& r.allow is None
    &&& r.cookies is None
    &&& r.acknowledgement is None
    &&& r.body@ == if is_head {
        Seq::<u8>::empty()
    } else {
        vstd::utf8::encode_utf8("{\"error\":\"rate_limited\"}"@)
    }
}


/// The stages in which the listener consults the source's rate limit.
pub open spec fn consults_rate_limit(stage: RequestStage) -> bool {
    stage is RateAfterUnparsedHead || stage is AdmitRate
}

/// Where a head read leads: a completed head, parsed or not, to a rate
/// stage; a read that stopped before the head completed to no stage at all.
pub open spec fn head_read_next<A>(event: RequestEvent<A>) -> Option<RequestStage> {
    match event {
        RequestEvent::HeadUnparsed(e) => Some(RequestStage::RateAfterUnparsedHead(e)),
        RequestEvent::HeadParsed { is_head } => Some(RequestStage::AdmitRate { is_head }),
        _ => None,
    }
}

/// The step after one stage of a request.
pub fn request_step<A>(stage: RequestStage, event: RequestEvent<A>) -> (step: RequestStep<A>)
    requires
        event_fits(stage, event),
    ensures
        match (stage, event) {
            (RequestStage::ReadHead, RequestEvent::HeadIncomplete(e)) =>
                step matches RequestStep::Respond(r) && read_error_response_matches(e, r),
            (RequestStage::ReadHead, RequestEvent::HeadUnparsed(e)) =>
                step matches RequestStep::Next(next) && next == RequestStage::RateAfterUnparsedHead(e),
            (RequestStage::ReadHead, RequestEvent::HeadParsed { is_head }) =>
                step matches RequestStep::Next(next) && next == (RequestStage::AdmitRate { is_head }),
            (RequestStage::RateAfterUnparsedHead(e), RequestEvent::RateChecked { admitted }) =>
                step matches RequestStep::Respond(r) && if admitted {
                    read_error_response_matches(e, r)
                } else {
                    is_fixed_response(r, 429, "{\"error\":\"rate_limited\"}"@, None)
                },
            (RequestStage::AdmitRate { is_head }, RequestEvent::RateChecked { admitted }) =>
                if admitted {
                    step matches RequestStep::Next(next) && next == (RequestStage::CheckFraming { is_head })
                } else {
                    step matches RequestStep::Respond(r) && r.profile == crate::response::ResponseProfile::Json
                        && is_rate_limited_response(r, is_head)
                },
            (RequestStage::CheckFraming { is_head }, RequestEvent::Framed(framed)) => match framed {
                Ok(()) => step matches RequestStep::Next(next) && next == (RequestStage::Validate { is_head }),
                Err(e) => step matches RequestStep::Respond(r) && read_error_response_matches(e, r),
            },
            (RequestStage::Validate { is_head }, RequestEvent::Validated(validated)) => match validated {
                Ok(()) => step matches RequestStep::Next(next) && next == (RequestStage::AcquirePermit { is_head }),
                Err(rejection) => step matches RequestStep::Respond(r) && r == rejection,
            },
            (RequestStage::AcquirePermit { is_head }, RequestEvent::PermitAdmitted) =>
                step matches RequestStep::Next(next) && next == (RequestStage::ReadBody { is_head }),
            (RequestStage::AcquirePermit { .. }, RequestEvent::PermitRejected(rejection)) =>
                step matches RequestStep::Respond(r) && r == rejection,
            (RequestStage::AcquirePermit { .. }, RequestEvent::PermitTimedOut) =>
                step matches RequestStep::Respond(r) && is_fixed_response(r, 504, "{\"error\":\"gateway_timeout\"}"@, None),
            (RequestStage::ReadBody { is_head }, RequestEvent::BodyRead) =>
                step matches RequestStep::Next(next) && next == (RequestStage::Dispatch { is_head }),
            (RequestStage::ReadBody { .. }, RequestEvent::BodyFailed(e)) =>
                step matches RequestStep::Respond(r) && read_error_response_matches(e, r),
            (RequestStage::ReadBody { .. }, RequestEvent::BodyTimedOut) =>
                step matches RequestStep::Respond(r) && is_fixed_response(r, 408, "{\"error\":\"request_timeout\"}"@, None),
            (RequestStage::Dispatch { is_head }, RequestEvent::Dispatched(response)) =>
                step matches RequestStep::Respond(r) && {
                    &&& r.status == response.status
                    &&& r.profile == response.profile
                    &&& r.allow == response.allow
                    &&& r.cookies == response.cookies
                    &&& r.acknowledgement == response.acknowledgement
                    &&& r.body@ == if is_head { Seq::<u8>::empty() } else { response.body@ }
                },
            (RequestStage::Dispatch { is_head }, RequestEvent::DispatchTimedOut) =>
                step matches RequestStep::Respond(r) && r.status == 504 && r.allow is None
                    && r.profile == crate::response::ResponseProfile::Json
                    && r.cookies is None && r.acknowledgement is None
                    && r.body@ == if is_head {
                        Seq::<u8>::empty()
                    } else {
                        vstd::utf8::encode_utf8("{\"error\":\"gateway_timeout\"}"@)
                    },
            _ => false,
        },
        stage == RequestStage::ReadHead ==> match head_read_next(event) {
            Some(next) => step matches RequestStep::Next(n) && n == next,
            None => step is Respond,
        },
{
    match stage {
        RequestStage::ReadHead => match event {
            RequestEvent::HeadIncomplete(e) => RequestStep::Respond(response_for_request_read_error(e)),
            RequestEvent::HeadUnparsed(e) => RequestStep::Next(RequestStage::RateAfterUnparsedHead(e)),
            RequestEvent::HeadParsed { is_head } => RequestStep::Next(RequestStage::AdmitRate { is_head }),
            _ => RequestStep::Respond(response_for_request_read_error(RequestReadError::Invalid)),
        },
        RequestStage::RateAfterUnparsedHead(e) => match event {
            RequestEvent::RateChecked { admitted } => if admitted {
                RequestStep::Respond(response_for_request_read_error(e))
            } else {
                RequestStep::Respond(rate_limited_response())
            },
            _ => RequestStep::Respond(response_for_request_read_error(RequestReadError::Invalid)),
        },
        RequestStage::AdmitRate { is_head } => match event {
            RequestEvent::RateChecked { admitted } => if admitted {
                RequestStep::Next(RequestStage::CheckFraming { is_head })
            } else {
                RequestStep::Respond(without_body_for_head(rate_limited_response(), is_head))
            },
            _ => RequestStep::Respond(response_for_request_read_error(RequestReadError::Invalid)),
        },
        RequestStage::CheckFraming { is_head } => match event {
            RequestEvent::Framed(Ok(())) => RequestStep::Next(RequestStage::Validate { is_head }),
            RequestEvent::Framed(Err(e)) => RequestStep::Respond(response_for_request_read_error(e)),
            _ => RequestStep::Respond(response_for_request_read_error(RequestReadError::Invalid)),
        },
        RequestStage::Validate { is_head } => match event {
            RequestEvent::Validated(Ok(())) => RequestStep::Next(RequestStage::AcquirePermit { is_head }),
            RequestEvent::Validated(Err(rejection)) => RequestStep::Respond(rejection),
            _ => RequestStep::Respond(response_for_request_read_error(RequestReadError::Invalid)),
        },
        RequestStage::AcquirePermit { is_head } => match event {
            RequestEvent::PermitAdmitted => RequestStep::Next(RequestStage::ReadBody { is_head }),
            RequestEvent::PermitRejected(rejection) => RequestStep::Respond(rejection),
            RequestEvent::PermitTimedOut => RequestStep::Respond(gateway_timeout_response()),
            _ => RequestStep::Respond(response_for_request_read_error(RequestReadError::Invalid)),
        },
        RequestStage::ReadBody { is_head } => match event {
            RequestEvent::BodyRead => RequestStep::Next(RequestStage::Dispatch { is_head }),
            RequestEvent::BodyFailed(e) => RequestStep::Respond(response_for_request_read_error(e)),
            RequestEvent::BodyTimedOut => RequestStep::Respond(request_timeout_response()),
            _ => RequestStep::Respond(response_for_request_read_error(RequestReadError::Invalid)),
        },
        RequestStage::Dispatch { is_head } => match event {
            RequestEvent::Dispatched(response) => RequestStep::Respond(without_body_for_head(response, is_head)),
            RequestEvent::DispatchTimedOut => RequestStep::Respond(without_body_for_head(gateway_timeout_response(), is_head)),
            _ => RequestStep::Respond(response_for_request_read_error(RequestReadError::Invalid)),
        },
    }
}

/// Runs a written response's acknowledgement only when the whole write,
/// connection shutdown included, completed inside the response budget.
pub fn acknowledge_written<F: FnOnce()>(acknowledgement: Option<ResponseWriteAcknowledgement<F>>, written: bool) -> (ran: bool)
    requires
        acknowledgement matches Some(a) ==> (a@ matches Some(action) ==> call_requires(action, ())),
    ensures
        ran == (written && (match acknowledgement { Some(a) => a@ is Some, None => false })),
{
    match acknowledgement {
        Some(mut acknowledgement) => {
            if written {
                acknowledgement.run()
            } else {
                false
            }
        },
        None => false,
    }
}

/// Every completed head consumes rate quota, parsed or not, and a head read
/// that stopped before the head completed (end of stream, a bare line feed,
/// the bound, or its deadline) is answered without consulting the limiter.
pub proof fn lemma_only_completed_heads_consume_quota<A>(event: RequestEvent<A>)
    requires
        event_fits(RequestStage::ReadHead, event),
    ensures
        event is HeadIncomplete ==> head_read_next(event) is None,
        !(event is HeadIncomplete) ==> (head_read_next(event) matches Some(next) && consults_rate_limit(next)),
{
}

} // verus!
