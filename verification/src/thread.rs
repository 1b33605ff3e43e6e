//! ReplyThreadResolver: the (root, parent) reference pair for a reply to a
//! triggering post.
//!
//! The parent is always a freshly built reference to the triggering post
//! itself. The root is the triggering post's own root when that post is
//! already a reply; otherwise the triggering post starts the thread and is
//! its own root.
use crate::model::{CommitEvent, CommitEventV, RecordVariant, RecordVariantV, ReplyRef, ReplyRefV,
    StrongRef, StrongRefV};
use vstd::prelude::*;
use vstd::string::*;

verus! {

/// The globally addressable URI of the record a commit event created.
pub open spec fn spec_post_uri(did: Seq<char>, collection: Seq<char>, rkey: Seq<char>) -> Seq<
    char,
> {
    "at://"@ + did + "/"@ + collection + "/"@ + rkey
}

/// The freshly built addressable reference to the record of `e` itself.
pub open spec fn spec_self_ref(e: CommitEventV) -> StrongRefV {
    StrongRefV { cid: e.cid, uri: spec_post_uri(e.did, e.collection, e.rkey) }
}

/// The reply reference for a reply to the post of `e`: parent is `e`'s own
/// record; root is `e`'s root when `e` is a reply, else `e`'s own record.
pub open spec fn spec_resolve(e: CommitEventV) -> ReplyRefV
    recommends
        e.record is Post,
{
    ReplyRefV {
        root: match e.record {
            RecordVariantV::Post(p) => match p.reply {
                Some(rr) => rr.root,
                None => spec_self_ref(e),
            },
            RecordVariantV::Other => spec_self_ref(e),
        },
        parent: spec_self_ref(e),
    }
}

/// Builds the URI addressing the record a commit event created.
pub fn post_uri(event: &CommitEvent) -> (r: String)
    ensures
        r@ == spec_post_uri(event.did@, event.collection@, event.rkey@),
{
    let mut uri = String::from_str("at://");
    uri.append(event.did.as_str());
    uri.append("/");
    uri.append(event.collection.as_str());
    uri.append("/");
    uri.append(event.rkey.as_str());
    proof {
        assert(uri@ =~= spec_post_uri(event.did@, event.collection@, event.rkey@));
    }
    uri
}

/// ReplyThreadResolver: the thread references for a reply to the post that
/// `event` created. Total over post events; no failure outcome.
pub fn resolve_reply(event: &CommitEvent) -> (r: ReplyRef)
    requires
        event.record is Post,
    ensures
        r@ == spec_resolve(event@),
{
    let uri = post_uri(event);
    let parent = StrongRef { cid: event.cid.clone(), uri };
    let root = match &event.record {
        RecordVariant::Post(post) => match &post.reply {
            Some(rr) => StrongRef { cid: rr.root.cid.clone(), uri: rr.root.uri.clone() },
            None => StrongRef { cid: parent.cid.clone(), uri: parent.uri.clone() },
        },
        RecordVariant::Other => StrongRef { cid: parent.cid.clone(), uri: parent.uri.clone() },
    };
    ReplyRef { root, parent }
}

/// The threading rule in one statement. A triggering post that is not
/// itself a reply becomes the root: root and parent are both the reference
/// to the triggering post. A triggering post that replies within a thread
/// rooted at `root` passes exactly that root on, while the parent is the
/// reference to the triggering post, never to the triggering post's own
/// parent. Hence every reply built by the resolver carries the same root as
/// the post it answers, re-derived from that post alone.
pub proof fn lemma_thread_root(e: CommitEventV)
    requires
        e.record is Post,
    ensures
        spec_resolve(e).parent == spec_self_ref(e),
        e.record->Post_0.reply is None ==> spec_resolve(e).root == spec_self_ref(e)
            && spec_resolve(e).root == spec_resolve(e).parent,
        e.record->Post_0.reply matches Some(rr) ==> spec_resolve(e).root == rr.root,
{
}

} // verus!
