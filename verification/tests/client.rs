use b2ghald::client::{HalClient, HalError};
use b2ghald::codec::{decode_request, encode_response, Request, Response};

#[test]
fn ids_count_up_from_zero_and_replies_correlate() {
    // A run of single-outstanding round trips: each send is answered before
    // the next, and every echoed id equals the id just issued.
    let mut client: HalClient<u32> = HalClient::new();
    let n = 5u64;
    for round in 0..n {
        assert_eq!(client.next_request_id(), round);
        let bytes = client.send(Request::GetBrightness, round as u32);
        // The envelope carries exactly the id the counter issued.
        let (issued, request) = decode_request(&bytes).expect("envelope must decode");
        assert_eq!(issued, round);
        assert_eq!(request, Request::GetBrightness);

        // The daemon echoes that id; the pump resolves the matching entry.
        let reply = encode_response(issued, &Response::GetBrightnessSuccess(7));
        let (echoed, sink, response) = client.get_next_message(&reply).expect("pump must resolve");
        assert_eq!(echoed, issued);
        assert_eq!(sink, round as u32);
        assert_eq!(response, Response::GetBrightnessSuccess(7));
        assert_eq!(client.pending_count(), 0);
    }
    assert_eq!(client.next_request_id(), n);
}

#[test]
fn reply_for_unknown_id_is_no_listener() {
    let mut client: HalClient<u32> = HalClient::new();
    let _ = client.send(Request::Reboot, 1);

    let reply = encode_response(99, &Response::RebootSuccess);
    assert_eq!(client.get_next_message(&reply), Err(HalError::NoListener));

    // The miss did not disturb the pending entry.
    assert!(client.is_pending(0));
    assert_eq!(client.pending_count(), 1);
}

#[test]
fn truncated_reply_is_a_stream_error() {
    let mut client: HalClient<u32> = HalClient::new();
    let _ = client.send(Request::GetBrightness, 1);

    let reply = encode_response(0, &Response::GetBrightnessSuccess(10));
    for cut in 0..reply.len() {
        assert_eq!(
            client.get_next_message(&reply[..cut]),
            Err(HalError::StreamError)
        );
    }

    // Garbage of the right length but an undefined discriminant fails too.
    let mut garbage = reply.clone();
    garbage[8] = 77;
    assert_eq!(client.get_next_message(&garbage), Err(HalError::StreamError));

    // Nothing was dispatched, so the entry is still pending.
    assert!(client.is_pending(0));
}

#[test]
fn two_sends_before_a_pump_correlate_to_the_stale_entry() {
    // Violating the single-outstanding discipline: both ids are pending at
    // once. The outcome is undefined by the protocol's assumptions; this
    // records what the table does with it rather than calling it correct.
    let mut client: HalClient<u32> = HalClient::new();
    let _ = client.send(Request::GetBrightness, 100);
    let _ = client.send(Request::GetBrightness, 200);
    assert_eq!(client.pending_count(), 2);

    // A reply bearing the first id resolves the first, stale entry, even
    // though the caller of the second send is the one waiting: the value
    // goes to the wrong sink and the second caller would wait forever.
    let reply = encode_response(0, &Response::GetBrightnessSuccess(1));
    let (echoed, sink, _) = client.get_next_message(&reply).expect("the stale id is pending");
    assert_eq!(echoed, 0);
    assert_ne!(echoed, 1, "the awaited id was 1; the reply matched a stale entry");
    assert_eq!(sink, 100);
    assert!(client.is_pending(1));
}

#[test]
fn send_failure_leaves_the_entry_registered() {
    // The caller owns the stream; when its write fails, nothing here runs
    // again for that id, so the entry stays pending forever — the known
    // leak of the design.
    let mut client: HalClient<u32> = HalClient::new();
    let bytes = client.send(Request::PowerOff, 1);
    drop(bytes); // the write never happened
    assert!(client.is_pending(0));
    assert_eq!(client.pending_count(), 1);
}
