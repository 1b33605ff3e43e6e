use pibot::mention::matches_mention;
use pibot::model::{CommitEvent, Facet, FacetFeature, PostRecord, RecordVariant};

fn post_event(text: &str, facets: Option<Vec<Facet>>) -> CommitEvent {
    CommitEvent {
        did: "did:plc:author".to_string(),
        collection: "app.bsky.feed.post".to_string(),
        rkey: "3kabc".to_string(),
        cid: "bafyone".to_string(),
        record: RecordVariant::Post(PostRecord {
            text: text.to_string(),
            facets,
            reply: None,
        }),
    }
}

fn mention_facet(did: &str) -> Facet {
    Facet {
        features: vec![FacetFeature::Mention {
            did: did.to_string(),
        }],
    }
}

#[test]
fn no_facets_never_matches() {
    let event = post_event("hello @pisearch 1", None);
    assert!(!matches_mention(&event, "did:plc:watched"));
}

#[test]
fn empty_facet_list_never_matches() {
    let event = post_event("hello", Some(vec![]));
    assert!(!matches_mention(&event, "did:plc:watched"));
}

#[test]
fn facet_without_features_never_matches() {
    let event = post_event("hello", Some(vec![Facet { features: vec![] }]));
    assert!(!matches_mention(&event, "did:plc:watched"));
}

#[test]
fn mention_of_watched_identity_matches() {
    let event = post_event("hello", Some(vec![mention_facet("did:plc:watched")]));
    assert!(matches_mention(&event, "did:plc:watched"));
}

#[test]
fn mention_of_other_identity_does_not_match() {
    let event = post_event("hello", Some(vec![mention_facet("did:plc:somebody")]));
    assert!(!matches_mention(&event, "did:plc:watched"));
}

#[test]
fn mention_comparison_is_case_sensitive() {
    let event = post_event("hello", Some(vec![mention_facet("did:plc:Watched")]));
    assert!(!matches_mention(&event, "did:plc:watched"));
}

#[test]
fn mention_among_other_features_matches() {
    let facet = Facet {
        features: vec![
            FacetFeature::Other,
            FacetFeature::Mention {
                did: "did:plc:watched".to_string(),
            },
        ],
    };
    let event = post_event("hello", Some(vec![Facet { features: vec![] }, facet]));
    assert!(matches_mention(&event, "did:plc:watched"));
}

#[test]
fn non_post_record_never_matches() {
    let event = CommitEvent {
        did: "did:plc:author".to_string(),
        collection: "app.bsky.feed.like".to_string(),
        rkey: "3kdef".to_string(),
        cid: "bafytwo".to_string(),
        record: RecordVariant::Other,
    };
    assert!(!matches_mention(&event, "did:plc:watched"));
}
