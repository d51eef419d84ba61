use std::time::{Duration, Instant};

use bytes::Bytes;
use file_stream::bridge::{
    produce, settle_send, BodyFrame, BodyReader, ConversionError, ProducerStep, SendOutcome,
    StreamMessage,
};
use file_stream::reference::{resolve, MalformedReference};
use file_stream::response::{assemble, preflight, FetchError, ResponsePlan, OCTET_STREAM};

fn parts(locator: &str) -> (String, String, String, String) {
    let r = resolve(locator).expect("a locator");
    (
        r.namespace().to_string(),
        r.database().to_string(),
        r.bucket().to_string(),
        r.path().to_string(),
    )
}

fn owned(a: &str, b: &str, c: &str, d: &str) -> (String, String, String, String) {
    (a.to_string(), b.to_string(), c.to_string(), d.to_string())
}

#[test]
fn resolve_splits_the_four_parts() {
    assert_eq!(parts("ns/db/photos/cat.png"), owned("ns", "db", "photos", "cat.png"));
}

#[test]
fn resolve_keeps_separators_in_the_path() {
    assert_eq!(parts("t1/main/docs/a/b/c.txt"), owned("t1", "main", "docs", "a/b/c.txt"));
    assert_eq!(parts("n/d/b//"), owned("n", "d", "b", "/"));
}

#[test]
fn resolve_reads_non_ascii_text() {
    assert_eq!(parts("名前/données/桶/ファイル/ü"), owned("名前", "données", "桶", "ファイル/ü"));
}

#[test]
fn resolve_rejects_missing_parts() {
    for locator in ["", "ns", "ns/db", "ns/db/bk", "ns/db/bk/", "/db/bk/p", "ns//bk/p", "ns/db//p"] {
        assert_eq!(resolve(locator).err(), Some(MalformedReference), "{}", locator);
    }
    assert_eq!(MalformedReference.status(), 404);
}

#[test]
fn fetch_errors_map_to_statuses() {
    assert_eq!(FetchError::NotFound.status(), 404);
    assert_eq!(FetchError::AccessDenied.status(), 403);
    assert_eq!(FetchError::BackendUnavailable.status(), 503);
}

#[test]
fn successful_fetch_streams_octets() {
    let plan = assemble(None);
    assert_eq!(plan, ResponsePlan::Stream);
    assert_eq!(plan.status(), 200);
    assert_eq!(plan.content_type(), Some("application/octet-stream"));
    assert_eq!(OCTET_STREAM, "application/octet-stream");
    assert!(plan.opens_stream());
}

#[test]
fn not_found_opens_no_stream() {
    let plan = assemble(Some(FetchError::NotFound));
    assert_eq!(plan, ResponsePlan::Reject(FetchError::NotFound));
    assert_eq!(plan.status(), 404);
    assert_eq!(plan.content_type(), None);
    assert!(!plan.opens_stream());
}

#[test]
fn other_fetch_failures_open_no_stream() {
    for e in [FetchError::AccessDenied, FetchError::BackendUnavailable] {
        let plan = assemble(Some(e));
        assert_eq!(plan.status(), e.status());
        assert!(!plan.opens_stream());
    }
}

#[test]
fn preflight_is_empty_success() {
    let plan = preflight();
    assert_eq!(plan, ResponsePlan::Empty);
    assert_eq!(plan.status(), 200);
    assert_eq!(plan.content_type(), None);
    assert!(!plan.opens_stream());
}

fn drain(reader: &mut BodyReader, received: Option<StreamMessage>) -> Vec<BodyFrame> {
    let mut frames = Vec::new();
    assert!(reader.wants_message());
    frames.push(reader.accept(received));
    assert!(!reader.wants_message());
    frames.push(reader.finish());
    frames
}

#[test]
fn payload_round_trips_byte_for_byte() {
    let data = Bytes::from(vec![0u8, 1, 2, 255, 128, 7]);
    let msg = produce(Ok(data.clone()));
    let mut reader = BodyReader::new();
    let frames = drain(&mut reader, Some(msg));
    match &frames[0] {
        BodyFrame::Data(b) => assert_eq!(b, &data),
        _ => panic!("expected data"),
    }
    assert!(matches!(frames[1], BodyFrame::End));
}

#[test]
fn empty_object_streams_no_bytes_and_completes() {
    let mut reader = BodyReader::new();
    let frames = drain(&mut reader, Some(produce(Ok(Bytes::new()))));
    match &frames[0] {
        BodyFrame::Data(b) => assert!(b.is_empty()),
        _ => panic!("expected data"),
    }
    assert!(matches!(frames[1], BodyFrame::End));
}

#[test]
fn conversion_failure_breaks_off_the_body() {
    assert_eq!(assemble(None).status(), 200);
    let e = ConversionError { reason: "unexpected shape".to_string() };
    let msg = produce(Err(e.clone()));
    assert!(matches!(&msg, StreamMessage::Failure(x) if *x == e));
    let mut reader = BodyReader::new();
    match reader.accept(Some(msg)) {
        BodyFrame::Abort(x) => assert_eq!(x, e),
        _ => panic!("expected a break-off"),
    }
}

#[test]
fn closed_channel_ends_the_body() {
    let mut reader = BodyReader::new();
    assert!(matches!(reader.accept(None), BodyFrame::End));
    assert!(!reader.wants_message());
}

#[test]
fn producer_finishes_whatever_the_send_gave() {
    assert_eq!(settle_send(SendOutcome::Delivered), ProducerStep::Finish);
    assert_eq!(settle_send(SendOutcome::ReceiverGone), ProducerStep::Finish);
}

fn runtime() -> tokio::runtime::Runtime {
    tokio::runtime::Builder::new_current_thread().build().expect("a runtime")
}

async fn run_producer(sender: async_channel::Sender<StreamMessage>, data: Bytes) -> SendOutcome {
    let outcome = match sender.send(produce(Ok(data))).await {
        Ok(()) => SendOutcome::Delivered,
        Err(_) => SendOutcome::ReceiverGone,
    };
    assert_eq!(settle_send(outcome), ProducerStep::Finish);
    outcome
}

async fn pull(receiver: async_channel::Receiver<StreamMessage>) -> Vec<u8> {
    let mut reader = BodyReader::new();
    let mut body = Vec::new();
    loop {
        let frame = if reader.wants_message() {
            reader.accept(receiver.recv().await.ok())
        } else {
            reader.finish()
        };
        match frame {
            BodyFrame::Data(b) => body.extend_from_slice(&b),
            BodyFrame::Abort(e) => panic!("aborted: {}", e.reason),
            BodyFrame::End => return body,
        }
    }
}

#[test]
fn concurrent_requests_do_not_wait_on_each_other() {
    let rt = runtime();
    rt.block_on(async {
        let n: usize = 8;
        let mut receivers = Vec::new();
        let mut producers = Vec::new();
        for i in 0..n {
            let (sender, receiver) = async_channel::bounded::<StreamMessage>(1);
            receivers.push(receiver);
            producers.push(tokio::spawn(run_producer(sender, Bytes::from(vec![i as u8; i + 1]))));
        }
        // Read every body but the first while the first stays unread.
        for i in (1..n).rev() {
            let body = pull(receivers[i].clone()).await;
            assert_eq!(body, vec![i as u8; i + 1]);
        }
        for (i, producer) in producers.into_iter().enumerate() {
            assert_eq!(producer.await.expect("producer ran"), SendOutcome::Delivered, "{}", i);
        }
        assert_eq!(pull(receivers[0].clone()).await, vec![0u8]);
    });
}

#[test]
fn dropped_body_lets_the_producer_finish() {
    let rt = runtime();
    let start = Instant::now();
    let outcome = rt.block_on(async {
        let (sender, receiver) = async_channel::bounded::<StreamMessage>(1);
        drop(receiver);
        tokio::spawn(run_producer(sender, Bytes::from_static(b"abc"))).await.expect("producer ran")
    });
    assert_eq!(outcome, SendOutcome::ReceiverGone);
    assert!(start.elapsed() < Duration::from_secs(5));
}
