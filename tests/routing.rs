use backplane::router::{Router, StopReason};
use backplane::stream_read::StreamReadResult;

/// Runs one chunk through the router; `fail` says which outputs fail.
fn deliver(router: &mut Router, sinks: &mut Vec<Vec<Vec<u8>>>, chunk: &[u8], fail: &[bool]) {
    router.on_read(StreamReadResult::BytesRead(chunk.len()), chunk);
    while let Some(i) = router.next_output() {
        let outcome = if fail[i] {
            Err("unreachable".to_string())
        } else {
            sinks[i].push(router.chunk().to_vec());
            Ok(router.chunk().len())
        };
        router.on_send(&outcome);
    }
}

#[test]
fn no_outputs_no_router() {
    assert!(Router::new(0).is_none());
}

#[test]
fn new_router_waits_for_input() {
    let r = Router::new(2).unwrap();
    assert!(r.is_running());
    assert_eq!(r.outputs(), 2);
    assert_eq!(r.next_output(), None);
    assert_eq!(r.chunks(), 0);
}

#[test]
fn fan_out_survives_a_transient_output_failure() {
    let mut router = Router::new(3).unwrap();
    let mut sinks: Vec<Vec<Vec<u8>>> = vec![Vec::new(), Vec::new(), Vec::new()];
    let c1 = b"first".to_vec();
    let c2 = b"second".to_vec();
    deliver(&mut router, &mut sinks, &c1, &[false, true, false]);
    assert!(router.is_running());
    assert!(router.is_failing(1));
    deliver(&mut router, &mut sinks, &c2, &[false, false, false]);
    assert!(router.is_running());
    assert_eq!(sinks[0], vec![c1.clone(), c2.clone()]);
    assert_eq!(sinks[1], vec![c2.clone()]);
    assert_eq!(sinks[2], vec![c1.clone(), c2.clone()]);
    assert_eq!(router.delivered(0), 2);
    assert_eq!(router.delivered(1), 1);
    assert_eq!(router.failed(1), 1);
    assert!(!router.is_failing(1));
    assert_eq!(router.delivered(2), 2);
}

#[test]
fn outputs_are_served_in_order() {
    let mut router = Router::new(3).unwrap();
    router.on_read(StreamReadResult::BytesRead(2), b"hi");
    let mut order = Vec::new();
    while let Some(i) = router.next_output() {
        order.push(i);
        router.on_send(&Ok(2));
    }
    assert_eq!(order, vec![0, 1, 2]);
}

#[test]
fn end_of_data_stops_after_n_chunks() {
    let mut router = Router::new(3).unwrap();
    let mut sinks: Vec<Vec<Vec<u8>>> = vec![Vec::new(), Vec::new(), Vec::new()];
    let chunks: Vec<Vec<u8>> = vec![b"a".to_vec(), b"bc".to_vec(), b"def".to_vec()];
    for c in chunks.iter() {
        deliver(&mut router, &mut sinks, c, &[false, false, false]);
    }
    router.on_read(StreamReadResult::Finished, b"");
    assert!(!router.is_running());
    assert_eq!(router.stop_reason(), &Some(StopReason::EndOfData));
    assert_eq!(router.next_output(), None);
    assert_eq!(router.chunks(), 3);
    for s in sinks.iter() {
        assert_eq!(*s, chunks);
    }
}

#[test]
fn read_error_stops_the_router() {
    let mut router = Router::new(1).unwrap();
    router.on_read(StreamReadResult::Error("reset".to_string()), b"");
    assert!(!router.is_running());
    assert_eq!(router.stop_reason(), &Some(StopReason::ReadError("reset".to_string())));
    assert_eq!(router.next_output(), None);
}

#[test]
fn empty_datagram_delivers_nothing() {
    let mut router = Router::new(2).unwrap();
    router.on_read(StreamReadResult::BytesRead(0), b"");
    assert!(router.is_running());
    assert_eq!(router.next_output(), None);
    assert_eq!(router.chunks(), 0);
}
