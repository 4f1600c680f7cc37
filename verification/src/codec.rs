//! The wire encoding of one envelope per direction: an 8-byte unsigned id,
//! a 4-byte discriminant selecting the payload variant, then the variant's
//! fields with no padding and no trailing delimiter. Message boundaries are
//! implicit in the statically known length of each variant, so a decoder
//! must be handed exactly one envelope's bytes.
//!
//! Multi-byte fields travel in little-endian order; client and daemon are
//! assumed to run on the same host, so no cross-endian concern arises.

use vstd::bytes::*;
use vstd::prelude::*;
use vstd::slice::*;

verus! {

/// A request sent to the daemon.
#[derive(Clone, Copy, Debug, PartialEq, Eq, Structural)]
pub enum Request {
    SetBrightness(u8),
    GetBrightness,
    EnableScreen(u8),
    DisableScreen(u8),
    Reboot,
    PowerOff,
}

/// A response from the daemon: one value-bearing variant for a brightness
/// read, and zero-payload acknowledgements for the other actions.
#[derive(Clone, Copy, Debug, PartialEq, Eq, Structural)]
pub enum Response {
    SetBrightnessSuccess,
    GetBrightnessSuccess(u8),
    EnableScreenSuccess,
    DisableScreenSuccess,
    RebootSuccess,
    PowerOffSuccess,
}

/// Bytes of id and discriminant that open every envelope.
pub const HEADER_LEN: usize = 12;

pub open spec fn spec_request_tag(r: Request) -> u32 {
    match r {
        Request::SetBrightness(_) => 0,
        Request::GetBrightness => 1,
        Request::EnableScreen(_) => 2,
        Request::DisableScreen(_) => 3,
        Request::Reboot => 4,
        Request::PowerOff => 5,
    }
}

pub open spec fn spec_request_payload(r: Request) -> Seq<u8> {
    match r {
        Request::SetBrightness(v) => seq![v],
        Request::GetBrightness => seq![],
        Request::EnableScreen(s) => seq![s],
        Request::DisableScreen(s) => seq![s],
        Request::Reboot => seq![],
        Request::PowerOff => seq![],
    }
}

pub open spec fn spec_response_tag(r: Response) -> u32 {
    match r {
        Response::SetBrightnessSuccess => 0,
        Response::GetBrightnessSuccess(_) => 1,
        Response::EnableScreenSuccess => 2,
        Response::DisableScreenSuccess => 3,
        Response::RebootSuccess => 4,
        Response::PowerOffSuccess => 5,
    }
}

pub open spec fn spec_response_payload(r: Response) -> Seq<u8> {
    match r {
        Response::GetBrightnessSuccess(v) => seq![v],
        _ => seq![],
    }
}

/// The outbound envelope for `request` under `id`, byte for byte.
pub open spec fn spec_encode_request(id: u64, request: Request) -> Seq<u8> {
    spec_u64_to_le_bytes(id) + spec_u32_to_le_bytes(spec_request_tag(request))
        + spec_request_payload(request)
}

/// The inbound envelope for `response` under `id`, byte for byte.
pub open spec fn spec_encode_response(id: u64, response: Response) -> Seq<u8> {
    spec_u64_to_le_bytes(id) + spec_u32_to_le_bytes(spec_response_tag(response))
        + spec_response_payload(response)
}

/// What a full outbound envelope decodes to: `Some` exactly when the bytes
/// are the encoding of one defined request variant, of exactly its length.
pub open spec fn spec_decode_request(s: Seq<u8>) -> Option<(u64, Request)> {
    if s.len() < 12 {
        None
    } else {
        let id = spec_u64_from_le_bytes(s.subrange(0, 8));
        let tag = spec_u32_from_le_bytes(s.subrange(8, 12));
        if tag == 0 && s.len() == 13 {
            Some((id, Request::SetBrightness(s[12])))
        } else if tag == 1 && s.len() == 12 {
            Some((id, Request::GetBrightness))
        } else if tag == 2 && s.len() == 13 {
            Some((id, Request::EnableScreen(s[12])))
        } else if tag == 3 && s.len() == 13 {
            Some((id, Request::DisableScreen(s[12])))
        } else if tag == 4 && s.len() == 12 {
            Some((id, Request::Reboot))
        } else if tag == 5 && s.len() == 12 {
            Some((id, Request::PowerOff))
        } else {
            None
        }
    }
}

/// What a full inbound envelope decodes to: `Some` exactly when the bytes
/// are the encoding of one defined response variant, of exactly its length.
pub open spec fn spec_decode_response(s: Seq<u8>) -> Option<(u64, Response)> {
    if s.len() < 12 {
        None
    } else {
        let id = spec_u64_from_le_bytes(s.subrange(0, 8));
        let tag = spec_u32_from_le_bytes(s.subrange(8, 12));
        if tag == 0 && s.len() == 12 {
            Some((id, Response::SetBrightnessSuccess))
        } else if tag == 1 && s.len() == 13 {
            Some((id, Response::GetBrightnessSuccess(s[12])))
        } else if tag == 2 && s.len() == 12 {
            Some((id, Response::EnableScreenSuccess))
        } else if tag == 3 && s.len() == 12 {
            Some((id, Response::DisableScreenSuccess))
        } else if tag == 4 && s.len() == 12 {
            Some((id, Response::RebootSuccess))
        } else if tag == 5 && s.len() == 12 {
            Some((id, Response::PowerOffSuccess))
        } else {
            None
        }
    }
}

/// Encodes one outbound envelope.
pub fn encode_request(id: u64, request: &Request) -> (bytes: Vec<u8>)
    ensures
        bytes@ == spec_encode_request(id, *request),
{
    let mut bytes = u64_to_le_bytes(id);
    let tag: u32 = match request {
        Request::SetBrightness(_) => 0,
        Request::GetBrightness => 1,
        Request::EnableScreen(_) => 2,
        Request::DisableScreen(_) => 3,
        Request::Reboot => 4,
        Request::PowerOff => 5,
    };
    let mut tag_bytes = u32_to_le_bytes(tag);
    bytes.append(&mut tag_bytes);
    match request {
        Request::SetBrightness(v) => bytes.push(*v),
        Request::EnableScreen(s) => bytes.push(*s),
        Request::DisableScreen(s) => bytes.push(*s),
        _ => {},
    }
    proof {
        assert(bytes@ =~= spec_encode_request(id, *request));
    }
    bytes
}

/// Encodes one inbound envelope, as the daemon does when it answers.
pub fn encode_response(id: u64, response: &Response) -> (bytes: Vec<u8>)
    ensures
        bytes@ == spec_encode_response(id, *response),
{
    let mut bytes = u64_to_le_bytes(id);
    let tag: u32 = match response {
        Response::SetBrightnessSuccess => 0,
        Response::GetBrightnessSuccess(_) => 1,
        Response::EnableScreenSuccess => 2,
        Response::DisableScreenSuccess => 3,
        Response::RebootSuccess => 4,
        Response::PowerOffSuccess => 5,
    };
    let mut tag_bytes = u32_to_le_bytes(tag);
    bytes.append(&mut tag_bytes);
    match response {
        Response::GetBrightnessSuccess(v) => bytes.push(*v),
        _ => {},
    }
    proof {
        assert(bytes@ =~= spec_encode_response(id, *response));
    }
    bytes
}

/// Decodes one full outbound envelope, as the daemon does.
pub fn decode_request(bytes: &[u8]) -> (r: Option<(u64, Request)>)
    ensures
        r == spec_decode_request(bytes@),
{
    if bytes.len() < 12 {
        return None;
    }
    let id = u64_from_le_bytes(slice_subrange(bytes, 0, 8));
    let tag = u32_from_le_bytes(slice_subrange(bytes, 8, 12));
    let len = bytes.len();
    if tag == 0 && len == 13 {
        Some((id, Request::SetBrightness(*slice_index_get(bytes, 12))))
    } else if tag == 1 && len == 12 {
        Some((id, Request::GetBrightness))
    } else if tag == 2 && len == 13 {
        Some((id, Request::EnableScreen(*slice_index_get(bytes, 12))))
    } else if tag == 3 && len == 13 {
        Some((id, Request::DisableScreen(*slice_index_get(bytes, 12))))
    } else if tag == 4 && len == 12 {
        Some((id, Request::Reboot))
    } else if tag == 5 && len == 12 {
        Some((id, Request::PowerOff))
    } else {
        None
    }
}

/// Decodes one full inbound envelope.
pub fn decode_response(bytes: &[u8]) -> (r: Option<(u64, Response)>)
    ensures
        r == spec_decode_response(bytes@),
{
    if bytes.len() < 12 {
        return None;
    }
    let id = u64_from_le_bytes(slice_subrange(bytes, 0, 8));
    let tag = u32_from_le_bytes(slice_subrange(bytes, 8, 12));
    let len = bytes.len();
    if tag == 0 && len == 12 {
        Some((id, Response::SetBrightnessSuccess))
    } else if tag == 1 && len == 13 {
        Some((id, Response::GetBrightnessSuccess(*slice_index_get(bytes, 12))))
    } else if tag == 2 && len == 12 {
        Some((id, Response::EnableScreenSuccess))
    } else if tag == 3 && len == 12 {
        Some((id, Response::DisableScreenSuccess))
    } else if tag == 4 && len == 12 {
        Some((id, Response::RebootSuccess))
    } else if tag == 5 && len == 12 {
        Some((id, Response::PowerOffSuccess))
    } else {
        None
    }
}

/// Payload bytes that follow the fixed header of an inbound envelope whose
/// discriminant is `tag`; `None` for a discriminant outside the defined set.
pub open spec fn spec_response_extra_len(tag: u32) -> Option<usize> {
    if tag == 1 {
        Some(1usize)
    } else if tag <= 5 {
        Some(0usize)
    } else {
        None
    }
}

/// From the 12 header bytes of an inbound envelope, how many payload bytes
/// follow. A reader takes the header, asks this, and reads exactly that many
/// more bytes, leaving the stream at the next envelope boundary.
pub fn response_extra_len(header: &[u8]) -> (r: Option<usize>)
    requires
        header@.len() >= 12,
    ensures
        r == spec_response_extra_len(spec_u32_from_le_bytes(header@.subrange(8, 12))),
{
    let tag = u32_from_le_bytes(slice_subrange(header, 8, 12));
    if tag == 1 {
        Some(1)
    } else if tag <= 5 {
        Some(0)
    } else {
        None
    }
}

/// Law: a buffer that holds the fixed header and then exactly the payload
/// bytes its discriminant calls for always decodes. A reader that takes the
/// header, asks `response_extra_len`, and reads exactly that many more bytes
/// therefore obtains a decodable envelope whenever the daemon speaks the
/// format, and stays aligned on the envelope boundary.
pub proof fn lemma_exact_read_decodes(s: Seq<u8>)
    requires
        s.len() >= 12,
        spec_response_extra_len(spec_u32_from_le_bytes(s.subrange(8, 12))) matches Some(extra)
            && s.len() == 12 + extra,
    ensures
        spec_decode_response(s) is Some,
{
}

/// Law: encoding any defined request variant and decoding the result gives
/// back exactly the id and request that went in.
pub proof fn lemma_request_round_trip(id: u64, request: Request)
    ensures
        spec_decode_request(spec_encode_request(id, request)) == Some((id, request)),
{
    lemma_auto_spec_u64_to_from_le_bytes();
    lemma_auto_spec_u32_to_from_le_bytes();
    let s = spec_encode_request(id, request);
    assert(s.subrange(0, 8) =~= spec_u64_to_le_bytes(id));
    assert(s.subrange(8, 12) =~= spec_u32_to_le_bytes(spec_request_tag(request)));
}

/// Law: encoding any defined response variant and decoding the result gives
/// back exactly the id and response that went in.
pub proof fn lemma_response_round_trip(id: u64, response: Response)
    ensures
        spec_decode_response(spec_encode_response(id, response)) == Some((id, response)),
{
    lemma_auto_spec_u64_to_from_le_bytes();
    lemma_auto_spec_u32_to_from_le_bytes();
    let s = spec_encode_response(id, response);
    assert(s.subrange(0, 8) =~= spec_u64_to_le_bytes(id));
    assert(s.subrange(8, 12) =~= spec_u32_to_le_bytes(spec_response_tag(response)));
}

/// Law: any byte sequence that decodes as a request is exactly the encoding
/// of what it decodes to — together with the round trip above, the encoding
/// is a bijection between defined envelopes and their byte images.
pub proof fn lemma_request_decode_exact(s: Seq<u8>, id: u64, request: Request)
    requires
        spec_decode_request(s) == Some((id, request)),
    ensures
        s == spec_encode_request(id, request),
{
    lemma_auto_spec_u64_to_from_le_bytes();
    lemma_auto_spec_u32_to_from_le_bytes();
    assert(spec_u64_to_le_bytes(id) == s.subrange(0, 8));
    assert(spec_u32_to_le_bytes(spec_request_tag(request)) == s.subrange(8, 12));
    assert(s =~= spec_encode_request(id, request));
}

/// Law: any byte sequence that decodes as a response is exactly the encoding
/// of what it decodes to.
pub proof fn lemma_response_decode_exact(s: Seq<u8>, id: u64, response: Response)
    requires
        spec_decode_response(s) == Some((id, response)),
    ensures
        s == spec_encode_response(id, response),
{
    lemma_auto_spec_u64_to_from_le_bytes();
    lemma_auto_spec_u32_to_from_le_bytes();
    assert(spec_u64_to_le_bytes(id) == s.subrange(0, 8));
    assert(spec_u32_to_le_bytes(spec_response_tag(response)) == s.subrange(8, 12));
    assert(s =~= spec_encode_response(id, response));
}

} // verus!
