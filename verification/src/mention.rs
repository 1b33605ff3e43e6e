//! MentionFilter: does a commit event's post mention the watched identity?
//!
//! Only the post variant of a record can match; a post matches exactly when
//! some facet carries a mention feature whose target identity equals the
//! watched identity, character for character, with no normalization.
use crate::model::{CommitEvent, CommitEventV, Facet, FacetFeature, FacetFeatureV, FacetV,
    PostRecordV, RecordVariant, RecordVariantV};
use crate::text::str_eq;
use vstd::prelude::*;

verus! {

/// Does one facet feature mention the watched identity?
pub open spec fn feature_mentions(f: FacetFeatureV, watched: Seq<char>) -> bool {
    match f {
        FacetFeatureV::Mention { did } => did == watched,
        FacetFeatureV::Other => false,
    }
}

/// Does some feature of this facet mention the watched identity?
pub open spec fn facet_mentions(f: FacetV, watched: Seq<char>) -> bool {
    exists|j: int| 0 <= j < f.features.len() && feature_mentions(#[trigger] f.features[j], watched)
}

/// Does some facet of this post mention the watched identity? A post
/// without facets never does.
pub open spec fn post_mentions(p: PostRecordV, watched: Seq<char>) -> bool {
    match p.facets {
        Some(fs) => exists|i: int| 0 <= i < fs.len() && facet_mentions(#[trigger] fs[i], watched),
        None => false,
    }
}

/// Does this commit event's record mention the watched identity? Only the
/// post variant can; every other record kind is ignored.
pub open spec fn event_mentions(e: CommitEventV, watched: Seq<char>) -> bool {
    match e.record {
        RecordVariantV::Post(p) => post_mentions(p, watched),
        RecordVariantV::Other => false,
    }
}

/// Does some feature of `facet` mention `watched`?
fn facet_matches(facet: &Facet, watched: &str) -> (r: bool)
    ensures
        r == facet_mentions(facet@, watched@),
{
    let n = facet.features.len();
    let mut j: usize = 0;
    #[verifier::loop_isolation(false)]
    while j < n
        invariant
            j <= n,
            forall|t: int| 0 <= t < j ==> !feature_mentions(#[trigger] facet@.features[t], watched@),
        decreases n - j,
    {
        match &facet.features[j] {
            FacetFeature::Mention { did } => {
                if str_eq(did.as_str(), watched) {
                    proof {
                        assert(feature_mentions(facet@.features[j as int], watched@));
                    }
                    return true;
                }
            },
            FacetFeature::Other => {},
        }
        j += 1;
    }
    false
}

/// MentionFilter: true exactly when the event is a post creation and the
/// post's markup mentions the watched identity. Total over every event.
pub fn matches_mention(event: &CommitEvent, watched: &str) -> (r: bool)
    ensures
        r == event_mentions(event@, watched@),
{
    match &event.record {
        RecordVariant::Post(post) => match &post.facets {
            Some(facets) => {
                let n = facets.len();
                let mut i: usize = 0;
                #[verifier::loop_isolation(false)]
                while i < n
                    invariant
                        i <= n,
                        forall|t: int|
                            0 <= t < i ==> !facet_mentions(
                                #[trigger] post@.facets->Some_0[t],
                                watched@,
                            ),
                    decreases n - i,
                {
                    if facet_matches(&facets[i], watched) {
                        proof {
                            assert(facet_mentions(post@.facets->Some_0[i as int], watched@));
                        }
                        return true;
                    }
                    i += 1;
                }
                false
            },
            None => false,
        },
        RecordVariant::Other => false,
    }
}

/// The mention filter in one statement: a post with no facets (or an empty
/// facet list) never matches, and otherwise the post matches exactly when
/// some facet carries a mention feature whose identity is, character for
/// character, the watched identity.
pub proof fn lemma_mention_filter(p: PostRecordV, watched: Seq<char>)
    ensures
        p.facets is None ==> !post_mentions(p, watched),
        p.facets matches Some(fs) && fs.len() == 0 ==> !post_mentions(p, watched),
        post_mentions(p, watched) <==> (p.facets is Some && exists|i: int, j: int|
            0 <= i < p.facets->Some_0.len() && 0 <= j < p.facets->Some_0[i].features.len() && (
            #[trigger] p.facets->Some_0[i].features[j]) == (FacetFeatureV::Mention {
                did: watched,
            })),
{
    if post_mentions(p, watched) {
        let fs = p.facets->Some_0;
        let i = choose|i: int| 0 <= i < fs.len() && facet_mentions(#[trigger] fs[i], watched);
        let j = choose|j: int|
            0 <= j < fs[i].features.len() && feature_mentions(
                #[trigger] fs[i].features[j],
                watched,
            );
        assert(0 <= i < p.facets->Some_0.len() && 0 <= j < p.facets->Some_0[i].features.len() && (
        p.facets->Some_0[i].features[j]) == (FacetFeatureV::Mention { did: watched }));
    }
    if p.facets is Some && exists|i: int, j: int|
        0 <= i < p.facets->Some_0.len() && 0 <= j < p.facets->Some_0[i].features.len() && (
        #[trigger] p.facets->Some_0[i].features[j]) == (FacetFeatureV::Mention { did: watched }) {
        let (i, j) = choose|i: int, j: int|
            0 <= i < p.facets->Some_0.len() && 0 <= j < p.facets->Some_0[i].features.len() && (
            #[trigger] p.facets->Some_0[i].features[j]) == (FacetFeatureV::Mention {
                did: watched,
            });
        let fs = p.facets->Some_0;
        assert(feature_mentions(fs[i].features[j], watched));
        assert(facet_mentions(fs[i], watched));
    }
}

} // verus!
