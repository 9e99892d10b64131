//! One request/response exchange as a state machine.
//!
//! `Exchange::start` checks the configuration and the point and asks for the
//! point to be encoded; from then on each `Exchange::step` takes the outcome
//! of the last action as an event and returns the next state together with
//! the next action. The caller performs `Encode`, `Send` and `Decode` and
//! reports back; `Finish` carries the result of the whole exchange. No state
//! outlives the exchange and nothing is retried.
use crate::config::{supports, Encoding, Endpoint, Transport, is_supported};
use crate::coordinate::{Cartesian, Polar};
use crate::error::TransformError;
use vstd::prelude::*;

verus! {

/// The lowest code of the success class: HTTP 200, or CoAP 2.00 written as
/// class times one hundred plus detail.
pub const SUCCESS_LOW: u16 = 200;

/// The highest code of the success class.
pub const SUCCESS_HIGH: u16 = 299;

/// A request ready to be dispatched.
pub struct Request {
    pub transport: Transport,
    /// Network address of the service, `host:port`.
    pub address: String,
    /// Resource path the request is posted to.
    pub path: String,
    /// The encoding of `body`, named in the content-type header (HTTP) or
    /// the content-format option (CoAP).
    pub encoding: Encoding,
    /// The encoded point.
    pub body: Vec<u8>,
    /// How long to wait for the answer, in milliseconds.
    pub timeout_ms: u64,
}

/// What the caller reports after performing an action.
pub enum Event {
    /// The point was encoded into these bytes.
    Encoded(Vec<u8>),
    /// The codec could not encode the point.
    EncodeFailed,
    /// The service answered. `code` is the HTTP status, or the CoAP response
    /// code as class times one hundred plus detail (2.05 is 205).
    Replied { code: u16, body: Vec<u8> },
    /// No answer came before the deadline.
    TimedOut,
    /// The request could not be delivered, or the transfer broke off.
    Unreachable,
    /// The body was decoded into these two numbers, radius and angle.
    Decoded { r_bits: u64, theta_bits: u64 },
    /// The body is not a polar value under the encoding (malformed bytes, a
    /// missing field, a field of the wrong type).
    DecodeFailed,
}

/// What the caller has to do next.
pub enum Action {
    /// Encode `point` in `encoding`, then report `Encoded` or `EncodeFailed`.
    Encode { point: Cartesian, encoding: Encoding },
    /// Dispatch the request, then report `Replied`, `TimedOut` or `Unreachable`.
    Send(Request),
    /// Decode `body` in `encoding`, then report `Decoded` or `DecodeFailed`.
    Decode { body: Vec<u8>, encoding: Encoding },
    /// The exchange is over, with this result.
    Finish(Result<Polar, TransformError>),
    /// The event answered no pending action and was ignored.
    Wait,
}

/// The state of an exchange between two events.
pub enum Exchange {
    /// The point is being encoded.
    AwaitEncoded { endpoint: Endpoint, encoding: Encoding, timeout_ms: u64 },
    /// The request is on its way.
    AwaitReply { encoding: Encoding },
    /// The response body is being decoded.
    AwaitDecoded,
    /// The exchange is over.
    Done(Result<Polar, TransformError>),
}

/// A response code in the success class.
pub open spec fn is_success_code(code: u16) -> bool {
    SUCCESS_LOW <= code && code <= SUCCESS_HIGH
}

/// The result owed for the two numbers decoded from a response body.
pub open spec fn decoded_result(r_bits: u64, theta_bits: u64) -> Result<Polar, TransformError> {
    let p = Polar { r_bits, theta_bits };
    if p.is_valid() {
        Ok(p)
    } else {
        Err(TransformError::DecodingError)
    }
}

/// The exchange ends with `res`, and says so.
pub open spec fn finished(res: Result<Polar, TransformError>) -> (Exchange, Action) {
    (Exchange::Done(res), Action::Finish(res))
}

/// The first state and action of an exchange. An unsupported pair of
/// transport and encoding is refused before anything else, then a point that
/// is not finite; otherwise the point is handed to the encoder.
pub open spec fn initial(
    point: Cartesian,
    endpoint: Endpoint,
    encoding: Encoding,
    timeout_ms: u64,
) -> (Exchange, Action) {
    if !supports(endpoint.transport, encoding) {
        finished(Err(TransformError::ConfigurationError))
    } else if !point.is_finite() {
        finished(Err(TransformError::EncodingError))
    } else {
        (
            Exchange::AwaitEncoded { endpoint, encoding, timeout_ms },
            Action::Encode { point, encoding },
        )
    }
}

/// The request that carries `body` to `endpoint`.
pub open spec fn request_for(
    endpoint: Endpoint,
    encoding: Encoding,
    body: Vec<u8>,
    timeout_ms: u64,
) -> Request {
    Request {
        transport: endpoint.transport,
        address: endpoint.address,
        path: endpoint.path,
        encoding,
        body,
        timeout_ms,
    }
}

/// The transition relation: the next state and action after `e` in state `s`.
pub open spec fn next(s: Exchange, e: Event) -> (Exchange, Action) {
    match (s, e) {
        (Exchange::AwaitEncoded { endpoint, encoding, timeout_ms }, Event::Encoded(body)) => (
            Exchange::AwaitReply { encoding },
            Action::Send(request_for(endpoint, encoding, body, timeout_ms)),
        ),
        (Exchange::AwaitEncoded { .. }, Event::EncodeFailed) => finished(
            Err(TransformError::EncodingError),
        ),
        (Exchange::AwaitReply { encoding }, Event::Replied { code, body }) => if is_success_code(
            code,
        ) {
            (Exchange::AwaitDecoded, Action::Decode { body, encoding })
        } else {
            finished(Err(TransformError::TransportError))
        },
        (Exchange::AwaitReply { .. }, Event::TimedOut) => finished(Err(TransformError::Timeout)),
        (Exchange::AwaitReply { .. }, Event::Unreachable) => finished(
            Err(TransformError::TransportError),
        ),
        (Exchange::AwaitDecoded, Event::Decoded { r_bits, theta_bits }) => finished(
            decoded_result(r_bits, theta_bits),
        ),
        (Exchange::AwaitDecoded, Event::DecodeFailed) => finished(
            Err(TransformError::DecodingError),
        ),
        (s, _) => (s, Action::Wait),
    }
}

/// Whether `code` is in the success class.
pub fn success_code(code: u16) -> (r: bool)
    ensures
        r == is_success_code(code),
{
    SUCCESS_LOW <= code && code <= SUCCESS_HIGH
}

/// The code of a CoAP response, as written in its header byte (class in the
/// top three bits, detail in the low five), in the numbering of `Replied`:
/// class times one hundred plus detail.
pub open spec fn coap_code_value(raw: u8) -> u16 {
    ((raw / 32) * 100 + raw % 32) as u16
}

/// Renumbers the header byte of a CoAP response as `Replied` expects it.
pub fn coap_code(raw: u8) -> (r: u16)
    ensures
        r == coap_code_value(raw),
{
    let class: u16 = (raw / 32) as u16;
    let detail: u16 = (raw % 32) as u16;
    class * 100 + detail
}

/// A CoAP response counts as a success exactly when its class is 2.
pub proof fn lemma_coap_success_class(raw: u8)
    ensures
        is_success_code(coap_code_value(raw)) <==> raw / 32 == 2,
{
    assert(is_success_code(coap_code_value(raw)) <==> raw / 32 == 2) by (nonlinear_arith);
}

impl Exchange {
    /// Begins the exchange that sends `point` to `endpoint` in `encoding`,
    /// waiting at most `timeout_ms` for the answer.
    pub fn start(point: Cartesian, endpoint: Endpoint, encoding: Encoding, timeout_ms: u64) -> (r: (
        Exchange,
        Action,
    ))
        ensures
            r == initial(point, endpoint, encoding, timeout_ms),
    {
        if !is_supported(endpoint.transport, encoding) {
            (
                Exchange::Done(Err(TransformError::ConfigurationError)),
                Action::Finish(Err(TransformError::ConfigurationError)),
            )
        } else if !point.check_finite() {
            (
                Exchange::Done(Err(TransformError::EncodingError)),
                Action::Finish(Err(TransformError::EncodingError)),
            )
        } else {
            (Exchange::AwaitEncoded { endpoint, encoding, timeout_ms }, Action::Encode { point, encoding })
        }
    }

    /// Takes the outcome of the last action and moves the exchange on.
    pub fn step(self, event: Event) -> (r: (Exchange, Action))
        ensures
            r == next(self, event),
    {
        match (self, event) {
            (Exchange::AwaitEncoded { endpoint, encoding, timeout_ms }, Event::Encoded(body)) => {
                let request = Request {
                    transport: endpoint.transport,
                    address: endpoint.address,
                    path: endpoint.path,
                    encoding,
                    body,
                    timeout_ms,
                };
                (Exchange::AwaitReply { encoding }, Action::Send(request))
            },
            (Exchange::AwaitEncoded { .. }, Event::EncodeFailed) => (
                Exchange::Done(Err(TransformError::EncodingError)),
                Action::Finish(Err(TransformError::EncodingError)),
            ),
            (Exchange::AwaitReply { encoding }, Event::Replied { code, body }) => {
                if success_code(code) {
                    (Exchange::AwaitDecoded, Action::Decode { body, encoding })
                } else {
                    (
                        Exchange::Done(Err(TransformError::TransportError)),
                        Action::Finish(Err(TransformError::TransportError)),
                    )
                }
            },
            (Exchange::AwaitReply { .. }, Event::TimedOut) => (
                Exchange::Done(Err(TransformError::Timeout)),
                Action::Finish(Err(TransformError::Timeout)),
            ),
            (Exchange::AwaitReply { .. }, Event::Unreachable) => (
                Exchange::Done(Err(TransformError::TransportError)),
                Action::Finish(Err(TransformError::TransportError)),
            ),
            (Exchange::AwaitDecoded, Event::Decoded { r_bits, theta_bits }) => {
                let res = Polar::from_bits(r_bits, theta_bits);
                (Exchange::Done(res), Action::Finish(res))
            },
            (Exchange::AwaitDecoded, Event::DecodeFailed) => (
                Exchange::Done(Err(TransformError::DecodingError)),
                Action::Finish(Err(TransformError::DecodingError)),
            ),
            (s, _) => (s, Action::Wait),
        }
    }
}

/// Once an exchange is over it stays over: every further event is ignored
/// and asks for nothing, in particular for no network work.
pub proof fn lemma_done_is_final(res: Result<Polar, TransformError>, e: Event)
    ensures
        next(Exchange::Done(res), e) == (Exchange::Done(res), Action::Wait),
{
}

/// A pair of transport and encoding that is not supported ends the exchange
/// at once with a configuration error, whatever the point: no request is
/// encoded or sent, then or after.
pub proof fn lemma_unsupported_pair_sends_nothing(
    point: Cartesian,
    endpoint: Endpoint,
    encoding: Encoding,
    timeout_ms: u64,
    e: Event,
)
    requires
        !supports(endpoint.transport, encoding),
    ensures
        initial(point, endpoint, encoding, timeout_ms) == finished(
            Err(TransformError::ConfigurationError),
        ),
        next(initial(point, endpoint, encoding, timeout_ms).0, e).1 == Action::Wait,
{
}

/// For every supported pair of transport and encoding, an exchange in which
/// the service answers with a success code and a body that decodes into a
/// well-formed polar value returns exactly that value. On the way the point
/// is handed to the encoder as it is, and the request carries the encoded
/// bytes to the endpoint's address and path with the configured deadline.
pub proof fn lemma_successful_exchange(
    point: Cartesian,
    endpoint: Endpoint,
    encoding: Encoding,
    timeout_ms: u64,
    sent: Vec<u8>,
    code: u16,
    body: Vec<u8>,
    answer: Polar,
)
    requires
        supports(endpoint.transport, encoding),
        point.is_finite(),
        is_success_code(code),
        answer.is_valid(),
    ensures
        ({
            let s0 = initial(point, endpoint, encoding, timeout_ms);
            let s1 = next(s0.0, Event::Encoded(sent));
            let s2 = next(s1.0, Event::Replied { code, body });
            let s3 = next(
                s2.0,
                Event::Decoded { r_bits: answer.r_bits, theta_bits: answer.theta_bits },
            );
            &&& s0.1 == Action::Encode { point, encoding }
            &&& s1.1 == Action::Send(request_for(endpoint, encoding, sent, timeout_ms))
            &&& s2.1 == Action::Decode { body, encoding }
            &&& s3 == finished(Ok(answer))
        }),
{
}

/// A service that does not answer before the deadline ends the exchange with
/// a timeout; the deadline handed to the transport is the configured one.
pub proof fn lemma_silent_service_times_out(
    point: Cartesian,
    endpoint: Endpoint,
    encoding: Encoding,
    timeout_ms: u64,
    sent: Vec<u8>,
)
    requires
        supports(endpoint.transport, encoding),
        point.is_finite(),
    ensures
        ({
            let s1 = next(initial(point, endpoint, encoding, timeout_ms).0, Event::Encoded(sent));
            &&& s1.1 matches Action::Send(req) && req.timeout_ms == timeout_ms
            &&& next(s1.0, Event::TimedOut) == finished(Err(TransformError::Timeout))
        }),
{
}

/// A response body that does not decode (malformed bytes, a missing field)
/// ends the exchange with a decoding error.
pub proof fn lemma_malformed_body_fails_decoding(
    point: Cartesian,
    endpoint: Endpoint,
    encoding: Encoding,
    timeout_ms: u64,
    sent: Vec<u8>,
    code: u16,
    body: Vec<u8>,
)
    requires
        supports(endpoint.transport, encoding),
        point.is_finite(),
        is_success_code(code),
    ensures
        ({
            let s1 = next(initial(point, endpoint, encoding, timeout_ms).0, Event::Encoded(sent));
            let s2 = next(s1.0, Event::Replied { code, body });
            next(s2.0, Event::DecodeFailed) == finished(Err(TransformError::DecodingError))
        }),
{
}

/// Every exchange that finishes successfully returns a well-formed polar
/// value: a finite radius at least zero and a finite angle.
pub proof fn lemma_success_is_well_formed(s: Exchange, e: Event, p: Polar)
    ensures
        next(s, e).1 == Action::Finish(Ok(p)) ==> p.is_valid(),
{
}

} // verus!
