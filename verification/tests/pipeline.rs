use pibot::model::{CommitEvent, Facet, FacetFeature, PostRecord, RecordVariant, ReplyRef,
    ResultEntry, SearchResult, StrongRef};
use pibot::pipeline::{build_reply, step_state, BotError, EventDecision, Pipeline, PipelineState,
    SearchOutcome, StreamSignal};

const WATCHED: &str = "did:plc:watched";

fn mention_event(text: &str) -> CommitEvent {
    CommitEvent {
        did: "did:plc:asker".to_string(),
        collection: "app.bsky.feed.post".to_string(),
        rkey: "3kevt".to_string(),
        cid: "bafyevt".to_string(),
        record: RecordVariant::Post(PostRecord {
            text: text.to_string(),
            facets: Some(vec![Facet {
                features: vec![FacetFeature::Mention {
                    did: WATCHED.to_string(),
                }],
            }]),
            reply: None,
        }),
    }
}

fn ok_result(entries: Vec<ResultEntry>) -> SearchResult {
    SearchResult {
        et: 3,
        r: entries,
        status: "ok".to_string(),
    }
}

fn found_entry(p: u64) -> ResultEntry {
    ResultEntry {
        k: "42".to_string(),
        st: 0,
        status: "found".to_string(),
        p,
        db: "".to_string(),
        da: "".to_string(),
        c: 1,
    }
}

#[test]
fn connecting_moves_to_streaming_on_subscription() {
    assert_eq!(
        step_state(PipelineState::Connecting, StreamSignal::Subscribed),
        PipelineState::Streaming
    );
}

#[test]
fn connect_failure_is_fatal() {
    assert_eq!(
        step_state(PipelineState::Connecting, StreamSignal::ConnectFailed),
        PipelineState::Stopped
    );
}

#[test]
fn streaming_drains_on_cancel_or_source_close() {
    assert_eq!(
        step_state(PipelineState::Streaming, StreamSignal::CancelRequested),
        PipelineState::Draining
    );
    assert_eq!(
        step_state(PipelineState::Streaming, StreamSignal::SourceClosed),
        PipelineState::Draining
    );
}

#[test]
fn draining_stops_once_buffer_is_empty() {
    assert_eq!(
        step_state(PipelineState::Draining, StreamSignal::Drained),
        PipelineState::Stopped
    );
}

#[test]
fn stopped_is_terminal() {
    for g in [
        StreamSignal::Subscribed,
        StreamSignal::ConnectFailed,
        StreamSignal::CancelRequested,
        StreamSignal::SourceClosed,
        StreamSignal::Drained,
    ] {
        assert_eq!(step_state(PipelineState::Stopped, g), PipelineState::Stopped);
    }
}

#[test]
fn inapplicable_signals_leave_state_unchanged() {
    assert_eq!(
        step_state(PipelineState::Connecting, StreamSignal::Drained),
        PipelineState::Connecting
    );
    assert_eq!(
        step_state(PipelineState::Streaming, StreamSignal::Subscribed),
        PipelineState::Streaming
    );
    assert_eq!(
        step_state(PipelineState::Draining, StreamSignal::CancelRequested),
        PipelineState::Draining
    );
}

#[test]
fn pipeline_walks_a_whole_run() {
    let mut p = Pipeline::new(WATCHED.to_string());
    assert_eq!(p.state, PipelineState::Connecting);
    assert!(!p.is_streaming());
    p.on_signal(StreamSignal::Subscribed);
    assert!(p.is_streaming());
    p.on_signal(StreamSignal::CancelRequested);
    assert_eq!(p.state, PipelineState::Draining);
    p.on_signal(StreamSignal::Drained);
    assert!(p.is_stopped());
}

#[test]
fn event_without_mention_is_ignored() {
    let mut p = Pipeline::new(WATCHED.to_string());
    p.on_signal(StreamSignal::Subscribed);
    let mut event = mention_event("hello @pisearch 42 there");
    if let RecordVariant::Post(ref mut post) = event.record {
        post.facets = None;
    }
    assert!(matches!(p.decide_event(&event), EventDecision::Ignore));
}

#[test]
fn mention_without_query_yields_no_reply_attempt() {
    let mut p = Pipeline::new(WATCHED.to_string());
    p.on_signal(StreamSignal::Subscribed);
    let event = mention_event("hello there, no request");
    assert!(matches!(p.decide_event(&event), EventDecision::NoQuery));
}

#[test]
fn mention_with_query_requests_a_search() {
    let mut p = Pipeline::new(WATCHED.to_string());
    p.on_signal(StreamSignal::Subscribed);
    let event = mention_event("hello @pisearch 42 there");
    match p.decide_event(&event) {
        EventDecision::Search(q) => assert_eq!(q, "42"),
        _ => panic!("expected a search decision"),
    }
}

#[test]
fn transport_failure_yields_transport_error() {
    let event = mention_event("hello @pisearch 42 there");
    let r = build_reply(&event, "42", &SearchOutcome::TransportFailed);
    assert_eq!(r.err(), Some(BotError::Transport));
}

#[test]
fn upstream_error_status_yields_upstream_error() {
    let event = mention_event("hello @pisearch 42 there");
    let res = SearchResult {
        et: 0,
        r: vec![],
        status: "error".to_string(),
    };
    let r = build_reply(&event, "42", &SearchOutcome::Response(res));
    assert_eq!(r.err(), Some(BotError::Upstream));
}

#[test]
fn end_to_end_mention_produces_one_rooted_reply() {
    // One commit event arrives while streaming; its post mentions the
    // watched identity and asks for 42; the search service answers with a
    // single match at position 9999. Exactly one outgoing post results.
    let mut p = Pipeline::new(WATCHED.to_string());
    p.on_signal(StreamSignal::Subscribed);
    let event = mention_event("hello @pisearch 42 there");

    let query = match p.decide_event(&event) {
        EventDecision::Search(q) => q,
        _ => panic!("the mention should request a search"),
    };
    assert_eq!(query, "42");

    let outcome = SearchOutcome::Response(ok_result(vec![found_entry(9999)]));
    let post = build_reply(&event, &query, &outcome).expect("a reply should be built");

    assert!(post.text.contains("42"));
    assert!(post.text.contains("9999"));
    let reply = post.reply.expect("the post must be a reply");
    // Rooted at the triggering event, which is not itself a reply.
    assert_eq!(reply.root.cid, "bafyevt");
    assert_eq!(reply.root.uri, "at://did:plc:asker/app.bsky.feed.post/3kevt");
    assert_eq!(reply.parent.cid, reply.root.cid);
    assert_eq!(reply.parent.uri, reply.root.uri);
    assert_eq!(post.tags, Some(vec!["#pi".to_string()]));
}

#[test]
fn reply_to_a_reply_keeps_the_thread_root() {
    let mut event = mention_event("@pisearch 7");
    if let RecordVariant::Post(ref mut post) = event.record {
        post.reply = Some(ReplyRef {
            root: StrongRef {
                cid: "bafyroot".to_string(),
                uri: "at://did:plc:first/app.bsky.feed.post/3k001".to_string(),
            },
            parent: StrongRef {
                cid: "bafymid".to_string(),
                uri: "at://did:plc:mid/app.bsky.feed.post/3k002".to_string(),
            },
        });
    }
    let outcome = SearchOutcome::Response(ok_result(vec![found_entry(3)]));
    let post = build_reply(&event, "7", &outcome).expect("a reply should be built");
    let reply = post.reply.expect("the post must be a reply");
    assert_eq!(reply.root.cid, "bafyroot");
    assert_eq!(reply.parent.cid, "bafyevt");
}

#[test]
fn standalone_post_carries_tag_and_no_reply() {
    let post = pibot::pipeline::standalone_post("pi news".to_string());
    assert_eq!(post.text, "pi news");
    assert!(post.reply.is_none());
    assert_eq!(post.tags, Some(vec!["#pi".to_string()]));
}
