use coord_client::config::{Encoding, Endpoint, Transport};
use coord_client::coordinate::{Cartesian, Polar};
use coord_client::error::TransformError;
use coord_client::exchange::{coap_code, success_code, Action, Event, Exchange};
use std::collections::BTreeMap;

const R: f64 = 3.6055512754639896;
const THETA: f64 = 0.5880026035475675;

fn point(x: f64, y: f64) -> Cartesian {
    Cartesian::new(x.to_bits(), y.to_bits())
}

fn endpoint(transport: Transport) -> Endpoint {
    let address = match transport {
        Transport::Http => "127.0.0.1:8001",
        Transport::Coap => "127.0.0.1:5688",
    };
    Endpoint::new(transport, address.to_string(), "/cartesian-to-polar".to_string())
}

fn fields(a: f64, b: f64, na: &str, nb: &str) -> BTreeMap<String, f64> {
    let mut m = BTreeMap::new();
    m.insert(na.to_string(), a);
    m.insert(nb.to_string(), b);
    m
}

fn encode(p: &Cartesian, encoding: Encoding) -> Vec<u8> {
    let m = fields(f64::from_bits(p.x_bits), f64::from_bits(p.y_bits), "x", "y");
    match encoding {
        Encoding::Json => serde_json::to_vec(&m).unwrap(),
        Encoding::Cbor => serde_cbor::to_vec(&m).unwrap(),
    }
}

fn decode(body: &[u8], encoding: Encoding) -> Event {
    let m: Option<BTreeMap<String, f64>> = match encoding {
        Encoding::Json => serde_json::from_slice(body).ok(),
        Encoding::Cbor => serde_cbor::from_slice(body).ok(),
    };
    match m {
        Some(m) => match (m.get("r"), m.get("theta")) {
            (Some(r), Some(t)) => Event::Decoded { r_bits: r.to_bits(), theta_bits: t.to_bits() },
            _ => Event::DecodeFailed,
        },
        None => Event::DecodeFailed,
    }
}

/// Runs an exchange against a stub service that answers the request with the
/// code and body in `answer`, or never answers when it is `None`.
fn run_stub(
    p: Cartesian,
    transport: Transport,
    encoding: Encoding,
    answer: Option<(u16, Vec<u8>)>,
) -> Result<Polar, TransformError> {
    let (mut state, mut action) = Exchange::start(p, endpoint(transport), encoding, 500);
    loop {
        let event = match action {
            Action::Encode { point, encoding } => Event::Encoded(encode(&point, encoding)),
            Action::Send(request) => {
                assert_eq!(request.path, "/cartesian-to-polar");
                assert_eq!(request.timeout_ms, 500);
                match &answer {
                    Some((code, body)) => Event::Replied { code: *code, body: body.clone() },
                    None => Event::TimedOut,
                }
            }
            Action::Decode { body, encoding } => decode(&body, encoding),
            Action::Finish(res) => return res,
            Action::Wait => panic!("no action pending"),
        };
        let (s, a) = state.step(event);
        state = s;
        action = a;
    }
}

fn polar_body(encoding: Encoding, r: f64, theta: f64) -> Vec<u8> {
    let m = fields(r, theta, "r", "theta");
    match encoding {
        Encoding::Json => serde_json::to_vec(&m).unwrap(),
        Encoding::Cbor => serde_cbor::to_vec(&m).unwrap(),
    }
}

#[test]
fn http_json_returns_the_service_polar() {
    let body = br#"{"r": 3.6055512754639896, "theta": 0.5880026035475675}"#.to_vec();
    let res = run_stub(point(3.0, 2.0), Transport::Http, Encoding::Json, Some((200, body)));
    let p = res.unwrap();
    assert!((f64::from_bits(p.r_bits) - R).abs() < 1e-9);
    assert!((f64::from_bits(p.theta_bits) - THETA).abs() < 1e-9);
}

#[test]
fn coap_cbor_returns_the_service_polar() {
    let body = polar_body(Encoding::Cbor, R, THETA);
    let res = run_stub(point(3.0, 2.0), Transport::Coap, Encoding::Cbor, Some((coap_code(0x45), body)));
    assert_eq!(res, Ok(Polar { r_bits: R.to_bits(), theta_bits: THETA.to_bits() }));
}

#[test]
fn every_supported_pair_returns_the_echoed_value() {
    let pairs = [
        (Transport::Http, Encoding::Json),
        (Transport::Http, Encoding::Cbor),
        (Transport::Coap, Encoding::Cbor),
    ];
    for (t, e) in pairs {
        let body = polar_body(e, 5.0, -1.25);
        let res = run_stub(point(-1.5, 7.0), t, e, Some((200, body)));
        assert_eq!(res, Ok(Polar { r_bits: 5.0f64.to_bits(), theta_bits: (-1.25f64).to_bits() }));
    }
}

#[test]
fn coap_with_json_is_a_configuration_error() {
    let (state, action) = Exchange::start(point(3.0, 2.0), endpoint(Transport::Coap), Encoding::Json, 500);
    assert!(matches!(action, Action::Finish(Err(TransformError::ConfigurationError))));
    let (_, after) = state.step(Event::Encoded(vec![1, 2, 3]));
    assert!(matches!(after, Action::Wait));
}

#[test]
fn silent_service_times_out() {
    let res = run_stub(point(3.0, 2.0), Transport::Http, Encoding::Json, None);
    assert_eq!(res, Err(TransformError::Timeout));
    let res = run_stub(point(3.0, 2.0), Transport::Coap, Encoding::Cbor, None);
    assert_eq!(res, Err(TransformError::Timeout));
}

#[test]
fn body_without_theta_is_a_decoding_error() {
    let body = br#"{"r": 3.6055512754639896}"#.to_vec();
    let res = run_stub(point(3.0, 2.0), Transport::Http, Encoding::Json, Some((200, body)));
    assert_eq!(res, Err(TransformError::DecodingError));
}

#[test]
fn garbage_body_is_a_decoding_error() {
    let res = run_stub(point(3.0, 2.0), Transport::Coap, Encoding::Cbor, Some((205, vec![0xff, 0x00])));
    assert_eq!(res, Err(TransformError::DecodingError));
}

#[test]
fn error_status_is_a_transport_error() {
    let body = polar_body(Encoding::Json, R, THETA);
    let res = run_stub(point(3.0, 2.0), Transport::Http, Encoding::Json, Some((500, body)));
    assert_eq!(res, Err(TransformError::TransportError));
    let res = run_stub(point(3.0, 2.0), Transport::Coap, Encoding::Cbor, Some((coap_code(0x84), vec![])));
    assert_eq!(res, Err(TransformError::TransportError));
}

#[test]
fn unreachable_service_is_a_transport_error() {
    let (s, _) = Exchange::start(point(3.0, 2.0), endpoint(Transport::Http), Encoding::Json, 10);
    let (s, _) = s.step(Event::Encoded(vec![0]));
    let (_, a) = s.step(Event::Unreachable);
    assert!(matches!(a, Action::Finish(Err(TransformError::TransportError))));
}

#[test]
fn encoder_failure_is_an_encoding_error() {
    let (s, _) = Exchange::start(point(3.0, 2.0), endpoint(Transport::Http), Encoding::Cbor, 10);
    let (_, a) = s.step(Event::EncodeFailed);
    assert!(matches!(a, Action::Finish(Err(TransformError::EncodingError))));
}

#[test]
fn point_that_is_not_finite_is_an_encoding_error() {
    for p in [point(f64::NAN, 1.0), point(1.0, f64::INFINITY), point(f64::NEG_INFINITY, 0.0)] {
        let (_, a) = Exchange::start(p, endpoint(Transport::Http), Encoding::Json, 10);
        assert!(matches!(a, Action::Finish(Err(TransformError::EncodingError))));
    }
}

#[test]
fn unsupported_pair_is_checked_before_the_point() {
    let (_, a) = Exchange::start(point(f64::NAN, 1.0), endpoint(Transport::Coap), Encoding::Json, 10);
    assert!(matches!(a, Action::Finish(Err(TransformError::ConfigurationError))));
}

#[test]
fn send_carries_the_encoded_point_to_the_endpoint() {
    let (s, a) = Exchange::start(point(3.0, 2.0), endpoint(Transport::Coap), Encoding::Cbor, 750);
    match a {
        Action::Encode { point: p, encoding } => {
            assert_eq!(p, point(3.0, 2.0));
            assert_eq!(encoding, Encoding::Cbor);
        }
        _ => panic!("expected an encode action"),
    }
    let (_, a) = s.step(Event::Encoded(vec![0xa2, 0x61]));
    match a {
        Action::Send(r) => {
            assert_eq!(r.transport, Transport::Coap);
            assert_eq!(r.address, "127.0.0.1:5688");
            assert_eq!(r.path, "/cartesian-to-polar");
            assert_eq!(r.encoding, Encoding::Cbor);
            assert_eq!(r.body, vec![0xa2, 0x61]);
            assert_eq!(r.timeout_ms, 750);
        }
        _ => panic!("expected a send action"),
    }
}

#[test]
fn out_of_order_event_is_ignored() {
    let (s, _) = Exchange::start(point(3.0, 2.0), endpoint(Transport::Http), Encoding::Json, 10);
    let (s, a) = s.step(Event::TimedOut);
    assert!(matches!(a, Action::Wait));
    let (_, a) = s.step(Event::Encoded(vec![7]));
    assert!(matches!(a, Action::Send(_)));
}

#[test]
fn success_class_bounds() {
    assert!(!success_code(199));
    assert!(success_code(200));
    assert!(success_code(299));
    assert!(!success_code(300));
    assert!(!success_code(404));
}

#[test]
fn coap_codes_are_renumbered() {
    assert_eq!(coap_code(0x45), 205);
    assert_eq!(coap_code(0x41), 201);
    assert_eq!(coap_code(0x84), 404);
    assert_eq!(coap_code(0xa0), 500);
    assert_eq!(coap_code(0x5f), 231);
}
