//! The data model of the pipeline: commit events, post records with their
//! facets, reply references, search results, and outgoing posts, together
//! with the mathematical views the contracts speak about.
use vstd::prelude::*;

verus! {

/// An addressable reference to one record: its content identifier paired
/// with its globally addressable URI.
#[derive(Debug)]
pub struct StrongRef {
    pub cid: String,
    pub uri: String,
}

/// Mathematical view of a [`StrongRef`].
pub struct StrongRefV {
    pub cid: Seq<char>,
    pub uri: Seq<char>,
}

impl View for StrongRef {
    type V = StrongRefV;

    open spec fn view(&self) -> StrongRefV {
        StrongRefV { cid: self.cid@, uri: self.uri@ }
    }
}

/// The (root, parent) pair attached to a reply post: `root` is the first
/// post of the thread, `parent` the post being replied to.
#[derive(Debug)]
pub struct ReplyRef {
    pub root: StrongRef,
    pub parent: StrongRef,
}

/// Mathematical view of a [`ReplyRef`].
pub struct ReplyRefV {
    pub root: StrongRefV,
    pub parent: StrongRefV,
}

impl View for ReplyRef {
    type V = ReplyRefV;

    open spec fn view(&self) -> ReplyRefV {
        ReplyRefV { root: self.root@, parent: self.parent@ }
    }
}

/// One typed feature of a facet. The pipeline only reads the mention
/// feature; every other feature kind is collapsed into `Other`.
#[derive(Debug)]
pub enum FacetFeature {
    Mention { did: String },
    Other,
}

/// Mathematical view of a [`FacetFeature`].
pub enum FacetFeatureV {
    Mention { did: Seq<char> },
    Other,
}

impl View for FacetFeature {
    type V = FacetFeatureV;

    open spec fn view(&self) -> FacetFeatureV {
        match self {
            FacetFeature::Mention { did } => FacetFeatureV::Mention { did: did@ },
            FacetFeature::Other => FacetFeatureV::Other,
        }
    }
}

/// A markup annotation on a text range of a post, carrying typed features.
#[derive(Debug)]
pub struct Facet {
    pub features: Vec<FacetFeature>,
}

/// Mathematical view of a [`Facet`].
pub struct FacetV {
    pub features: Seq<FacetFeatureV>,
}

impl View for Facet {
    type V = FacetV;

    open spec fn view(&self) -> FacetV {
        FacetV { features: self.features@.map_values(|f: FacetFeature| f@) }
    }
}

/// The post variant of a content record: free text, optional markup
/// facets, and an optional reply reference.
#[derive(Debug)]
pub struct PostRecord {
    pub text: String,
    pub facets: Option<Vec<Facet>>,
    pub reply: Option<ReplyRef>,
}

/// Mathematical view of a [`PostRecord`].
pub struct PostRecordV {
    pub text: Seq<char>,
    pub facets: Option<Seq<FacetV>>,
    pub reply: Option<ReplyRefV>,
}

impl View for PostRecord {
    type V = PostRecordV;

    open spec fn view(&self) -> PostRecordV {
        PostRecordV {
            text: self.text@,
            facets: match self.facets {
                Some(ref fs) => Some(fs@.map_values(|f: Facet| f@)),
                None => None,
            },
            reply: match self.reply {
                Some(ref r) => Some(r@),
                None => None,
            },
        }
    }
}

/// A content record as it arrives on the stream: the pipeline reads the
/// post variant and ignores every other collection's records.
#[derive(Debug)]
pub enum RecordVariant {
    Post(PostRecord),
    Other,
}

/// Mathematical view of a [`RecordVariant`].
pub enum RecordVariantV {
    Post(PostRecordV),
    Other,
}

impl View for RecordVariant {
    type V = RecordVariantV;

    open spec fn view(&self) -> RecordVariantV {
        match self {
            RecordVariant::Post(p) => RecordVariantV::Post(p@),
            RecordVariant::Other => RecordVariantV::Other,
        }
    }
}

/// A commit event: the notification that one record was created in a
/// watched collection, with everything needed to address that record.
#[derive(Debug)]
pub struct CommitEvent {
    pub did: String,
    pub collection: String,
    pub rkey: String,
    pub cid: String,
    pub record: RecordVariant,
}

/// Mathematical view of a [`CommitEvent`].
pub struct CommitEventV {
    pub did: Seq<char>,
    pub collection: Seq<char>,
    pub rkey: Seq<char>,
    pub cid: Seq<char>,
    pub record: RecordVariantV,
}

impl View for CommitEvent {
    type V = CommitEventV;

    open spec fn view(&self) -> CommitEventV {
        CommitEventV {
            did: self.did@,
            collection: self.collection@,
            rkey: self.rkey@,
            cid: self.cid@,
            record: self.record@,
        }
    }
}

/// One match entry of a search response: a 1-based position `p` in the
/// digits, a per-entry status, and the remaining response metadata.
#[derive(Debug)]
pub struct ResultEntry {
    pub k: String,
    pub st: u8,
    pub status: String,
    pub p: u64,
    pub db: String,
    pub da: String,
    pub c: u32,
}

/// Mathematical view of a [`ResultEntry`].
pub struct ResultEntryV {
    pub k: Seq<char>,
    pub st: u8,
    pub status: Seq<char>,
    pub p: u64,
    pub db: Seq<char>,
    pub da: Seq<char>,
    pub c: u32,
}

impl View for ResultEntry {
    type V = ResultEntryV;

    open spec fn view(&self) -> ResultEntryV {
        ResultEntryV {
            k: self.k@,
            st: self.st,
            status: self.status@,
            p: self.p,
            db: self.db@,
            da: self.da@,
            c: self.c,
        }
    }
}

/// A structurally valid search response: an overall status and an ordered
/// list of match entries. An empty list is the valid "not found" outcome,
/// distinct from a failed search.
#[derive(Debug)]
pub struct SearchResult {
    pub et: u64,
    pub r: Vec<ResultEntry>,
    pub status: String,
}

/// Mathematical view of a [`SearchResult`].
pub struct SearchResultV {
    pub et: u64,
    pub r: Seq<ResultEntryV>,
    pub status: Seq<char>,
}

impl View for SearchResult {
    type V = SearchResultV;

    open spec fn view(&self) -> SearchResultV {
        SearchResultV {
            et: self.et,
            r: self.r@.map_values(|e: ResultEntry| e@),
            status: self.status@,
        }
    }
}

/// A post the bot is about to create: body text, an optional reply
/// reference, and an optional tag set.
#[derive(Debug)]
pub struct OutgoingPost {
    pub text: String,
    pub reply: Option<ReplyRef>,
    pub tags: Option<Vec<String>>,
}

/// Mathematical view of an [`OutgoingPost`].
pub struct OutgoingPostV {
    pub text: Seq<char>,
    pub reply: Option<ReplyRefV>,
    pub tags: Option<Seq<Seq<char>>>,
}

impl View for OutgoingPost {
    type V = OutgoingPostV;

    open spec fn view(&self) -> OutgoingPostV {
        OutgoingPostV {
            text: self.text@,
            reply: match self.reply {
                Some(ref r) => Some(r@),
                None => None,
            },
            tags: match self.tags {
                Some(ref ts) => Some(ts@.map_values(|t: String| t@)),
                None => None,
            },
        }
    }
}

} // verus!
