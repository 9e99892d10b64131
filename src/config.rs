//! Where and how a point is sent: the transport, the wire encoding, and which
//! of the pairs are supported.
use vstd::prelude::*;

verus! {

/// The network protocol that carries the request and the response.
#[derive(Clone, Copy, Debug, PartialEq, Eq, Structural)]
pub enum Transport {
    Http,
    Coap,
}

/// The serialisation of the request and response bodies; one encoding is
/// used in both directions.
#[derive(Clone, Copy, Debug, PartialEq, Eq, Structural)]
pub enum Encoding {
    Json,
    Cbor,
}

/// The service a point is sent to.
pub struct Endpoint {
    pub transport: Transport,
    /// Network address of the service, `host:port`.
    pub address: String,
    /// Resource path on the service, such as `/cartesian-to-polar`.
    pub path: String,
}

/// The CoAP content-format number of JSON.
pub const COAP_FORMAT_JSON: u16 = 50;

/// The CoAP content-format number of CBOR.
pub const COAP_FORMAT_CBOR: u16 = 60;

/// HTTP carries both encodings; CoAP carries CBOR only.
pub open spec fn supports(t: Transport, e: Encoding) -> bool {
    match t {
        Transport::Http => true,
        Transport::Coap => e == Encoding::Cbor,
    }
}

/// The media type named in an HTTP content-type header.
pub open spec fn media_type_of(e: Encoding) -> Seq<char> {
    match e {
        Encoding::Json => "application/json"@,
        Encoding::Cbor => "application/cbor"@,
    }
}

/// The number named in a CoAP content-format option.
pub open spec fn content_format_of(e: Encoding) -> u16 {
    match e {
        Encoding::Json => COAP_FORMAT_JSON,
        Encoding::Cbor => COAP_FORMAT_CBOR,
    }
}

/// Whether `transport` carries bodies in `encoding`.
pub fn is_supported(transport: Transport, encoding: Encoding) -> (r: bool)
    ensures
        r == supports(transport, encoding),
{
    match transport {
        Transport::Http => true,
        Transport::Coap => match encoding {
            Encoding::Cbor => true,
            Encoding::Json => false,
        },
    }
}

/// The HTTP media type of `encoding`.
pub fn media_type(encoding: Encoding) -> (r: &'static str)
    ensures
        r@ == media_type_of(encoding),
{
    match encoding {
        Encoding::Json => "application/json",
        Encoding::Cbor => "application/cbor",
    }
}

/// The CoAP content-format number of `encoding`.
pub fn content_format(encoding: Encoding) -> (r: u16)
    ensures
        r == content_format_of(encoding),
{
    match encoding {
        Encoding::Json => COAP_FORMAT_JSON,
        Encoding::Cbor => COAP_FORMAT_CBOR,
    }
}

impl Endpoint {
    pub fn new(transport: Transport, address: String, path: String) -> (ep: Endpoint)
        ensures
            ep.transport == transport,
            ep.address@ == address@,
            ep.path@ == path@,
    {
        Endpoint { transport, address, path }
    }
}

} // verus!
