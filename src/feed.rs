use vstd::prelude::*;
use vstd::string::*;
use std::sync::Arc;
use crate::post::{Post, PostView};
use crate::driver::posts_view;

verus! {

pub const FEED_TITLE: &'static str = "NHK Web Easy RSS Feed";

pub const FEED_LINK: &'static str = "https://www3.nhk.or.jp/news/easy/";

pub const FEED_DESCRIPTION: &'static str = "A 3rd-party NHK Web Easy RSS Feed";

/// One complete feed: the fixed feed metadata and the posts of one pass.
pub struct FeedSnapshot {
    pub title: String,
    pub link: String,
    pub description: String,
    pub items: Vec<Post>,
}

pub struct SnapshotView {
    pub title: Seq<char>,
    pub link: Seq<char>,
    pub description: Seq<char>,
    pub items: Seq<PostView>,
}

impl View for FeedSnapshot {
    type V = SnapshotView;

    open spec fn view(&self) -> SnapshotView {
        SnapshotView {
            title: self.title@,
            link: self.link@,
            description: self.description@,
            items: posts_view(self.items@),
        }
    }
}

/// The snapshot that a pass producing `posts` publishes.
pub open spec fn snapshot_of(posts: Seq<PostView>) -> SnapshotView {
    SnapshotView {
        title: FEED_TITLE@,
        link: FEED_LINK@,
        description: FEED_DESCRIPTION@,
        items: posts,
    }
}

impl FeedSnapshot {
    /// The feed served before the first pass completes: metadata, no items.
    pub fn empty() -> (r: FeedSnapshot)
        ensures
            r@ == snapshot_of(Seq::empty()),
    {
        let r = FeedSnapshot::from_posts(Vec::new());
        proof {
            assert(r@.items =~= Seq::<PostView>::empty());
        }
        r
    }

    /// The feed made of the fixed metadata and `posts`, in their order.
    pub fn from_posts(posts: Vec<Post>) -> (r: FeedSnapshot)
        ensures
            r@ == snapshot_of(posts_view(posts@)),
    {
        FeedSnapshot {
            title: String::from_str(FEED_TITLE),
            link: String::from_str(FEED_LINK),
            description: String::from_str(FEED_DESCRIPTION),
            items: posts,
        }
    }
}

/// The latest complete snapshot, shared with its readers. Replacing it swaps
/// one handle: a reader holds either the old snapshot or the new one, whole.
pub struct FeedCache {
    current: Arc<FeedSnapshot>,
}

impl View for FeedCache {
    type V = SnapshotView;

    closed spec fn view(&self) -> SnapshotView {
        self.current@
    }
}

/// Relies on `Arc::clone`: a new handle to the same value.
#[verifier::external_body]
fn share(a: &Arc<FeedSnapshot>) -> (r: Arc<FeedSnapshot>)
    ensures
        r == *a,
{
    Arc::clone(a)
}

impl FeedCache {
    /// A cache holding the empty feed.
    pub fn new() -> (r: FeedCache)
        ensures
            r@ == snapshot_of(Seq::empty()),
    {
        FeedCache { current: Arc::new(FeedSnapshot::empty()) }
    }

    /// Replaces the held snapshot by `snapshot`, whole.
    pub fn publish(&mut self, snapshot: FeedSnapshot)
        ensures
            final(self)@ == snapshot@,
    {
        self.current = Arc::new(snapshot);
    }

    /// The held snapshot.
    pub fn read(&self) -> (r: Arc<FeedSnapshot>)
        ensures
            r@ == self@,
    {
        share(&self.current)
    }
}

} // verus!
