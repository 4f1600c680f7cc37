use b2ghald::codec::{
    decode_request, decode_response, encode_request, encode_response, response_extra_len, Request,
    Response, HEADER_LEN,
};

fn all_requests() -> Vec<Request> {
    vec![
        Request::SetBrightness(0),
        Request::SetBrightness(50),
        Request::SetBrightness(255),
        Request::GetBrightness,
        Request::EnableScreen(0),
        Request::EnableScreen(3),
        Request::DisableScreen(1),
        Request::Reboot,
        Request::PowerOff,
    ]
}

fn all_responses() -> Vec<Response> {
    vec![
        Response::SetBrightnessSuccess,
        Response::GetBrightnessSuccess(0),
        Response::GetBrightnessSuccess(77),
        Response::GetBrightnessSuccess(255),
        Response::EnableScreenSuccess,
        Response::DisableScreenSuccess,
        Response::RebootSuccess,
        Response::PowerOffSuccess,
    ]
}

#[test]
fn request_round_trip_every_variant() {
    let ids = [0u64, 1, 7, u64::MAX - 1, u64::MAX];
    for &id in ids.iter() {
        for &request in all_requests().iter() {
            let bytes = encode_request(id, &request);
            assert_eq!(decode_request(&bytes), Some((id, request)));
        }
    }
}

#[test]
fn response_round_trip_every_variant() {
    let ids = [0u64, 3, 0x0102030405060708, u64::MAX];
    for &id in ids.iter() {
        for &response in all_responses().iter() {
            let bytes = encode_response(id, &response);
            assert_eq!(decode_response(&bytes), Some((id, response)));
        }
    }
}

#[test]
fn request_exact_bytes() {
    let bytes = encode_request(1, &Request::SetBrightness(50));
    assert_eq!(bytes, vec![1, 0, 0, 0, 0, 0, 0, 0, 0, 0, 0, 0, 50]);

    let bytes = encode_request(0x0102030405060708, &Request::GetBrightness);
    assert_eq!(bytes, vec![8, 7, 6, 5, 4, 3, 2, 1, 1, 0, 0, 0]);

    let bytes = encode_request(2, &Request::EnableScreen(9));
    assert_eq!(bytes, vec![2, 0, 0, 0, 0, 0, 0, 0, 2, 0, 0, 0, 9]);

    let bytes = encode_request(3, &Request::PowerOff);
    assert_eq!(bytes, vec![3, 0, 0, 0, 0, 0, 0, 0, 5, 0, 0, 0]);
}

#[test]
fn response_exact_bytes() {
    let bytes = encode_response(5, &Response::GetBrightnessSuccess(77));
    assert_eq!(bytes, vec![5, 0, 0, 0, 0, 0, 0, 0, 1, 0, 0, 0, 77]);

    let bytes = encode_response(0, &Response::SetBrightnessSuccess);
    assert_eq!(bytes, vec![0, 0, 0, 0, 0, 0, 0, 0, 0, 0, 0, 0]);
}

#[test]
fn decode_rejects_short_input() {
    assert_eq!(decode_response(&[]), None);
    assert_eq!(decode_request(&[]), None);
    let bytes = encode_response(9, &Response::RebootSuccess);
    for cut in 0..bytes.len() {
        assert_eq!(decode_response(&bytes[..cut]), None);
    }
}

#[test]
fn decode_rejects_wrong_length_for_tag() {
    // A brightness-value reply that lost its payload byte.
    let mut bytes = encode_response(4, &Response::GetBrightnessSuccess(10));
    bytes.pop();
    assert_eq!(bytes.len(), HEADER_LEN);
    assert_eq!(decode_response(&bytes), None);

    // An acknowledgement with a stray trailing byte.
    let mut bytes = encode_response(4, &Response::RebootSuccess);
    bytes.push(0);
    assert_eq!(decode_response(&bytes), None);
}

#[test]
fn decode_rejects_unknown_discriminant() {
    let mut bytes = encode_response(4, &Response::RebootSuccess);
    bytes[8] = 6;
    assert_eq!(decode_response(&bytes), None);
    bytes[8] = 255;
    assert_eq!(decode_response(&bytes), None);

    let mut bytes = encode_request(4, &Request::Reboot);
    bytes[8] = 6;
    assert_eq!(decode_request(&bytes), None);
}

#[test]
fn extra_len_matches_each_tag() {
    let header = encode_response(11, &Response::GetBrightnessSuccess(1));
    assert_eq!(response_extra_len(&header[..HEADER_LEN]), Some(1));

    let header = encode_response(11, &Response::SetBrightnessSuccess);
    assert_eq!(response_extra_len(&header), Some(0));
    let header = encode_response(11, &Response::PowerOffSuccess);
    assert_eq!(response_extra_len(&header), Some(0));

    let mut header = encode_response(11, &Response::RebootSuccess);
    header[8] = 200;
    assert_eq!(response_extra_len(&header), None);
}
