use vstd::prelude::*;
use vstd::string::*;
use crate::post::{Post, PostView};
use crate::post_crawler::{
    follow_ups_view, errors_view, scrape_spec, CrawlError, CrawlErrorView,
    CrawlStateView, FollowUp, FollowUpView, NhkWebEasyCrawler, NhkWebEasyCrawlerState,
    ResponseBody, ResponseBodyView, Scraped, ScrapedView, TOP_LIST_URL, PostMeta, meta,
    listing_follow_ups, entry_follow_up, TopNewsView,
};

verus! {

/// One crawl pass: the frontier of requests in the order they were
/// discovered, how many of them were made, and the posts gathered so far.
pub struct CrawlDriver {
    crawler: NhkWebEasyCrawler,
    frontier: Vec<FollowUp>,
    made: usize,
    posts: Vec<Post>,
}

/// A pass as the crawl sees it: the requests still to make, in order, and the
/// posts gathered so far, in the order they were produced.
pub struct DriverView {
    pub pending: Seq<FollowUpView>,
    pub posts: Seq<PostView>,
}

pub open spec fn posts_view(p: Seq<Post>) -> Seq<PostView> {
    p.map_values(|x: Post| x@)
}

/// The seed of every pass: the listing, requested for the `TopList` state.
pub open spec fn seed_view() -> FollowUpView {
    FollowUpView { url: TOP_LIST_URL@, state: CrawlStateView::TopList }
}

/// A pass before its first request.
pub open spec fn initial_view() -> DriverView {
    DriverView { pending: seq![seed_view()], posts: Seq::empty() }
}

/// A pass as far as the responses fix it: the requests still to make, and
/// the metadata of the posts gathered so far.
pub struct PassView {
    pub pending: Seq<FollowUpView>,
    pub posts: Seq<PostMeta>,
}

pub open spec fn pass_of(d: DriverView) -> PassView {
    PassView { pending: d.pending, posts: d.posts.map_values(|p: PostView| meta(p)) }
}

/// What one completed request does to a pass, and the errors that it reports.
/// `outcome` is the fetched body, or `None` where the fetch failed.
/// The request made is the first pending one; its follow-ups join the end of
/// the frontier, and a post it yields joins the posts.
pub open spec fn step(d: PassView, outcome: Option<ResponseBodyView>) -> (PassView, Seq<
    CrawlErrorView,
>) {
    let head = d.pending[0];
    let rest = d.pending.drop_first();
    match outcome {
        None => (
            PassView { pending: rest, posts: d.posts },
            seq![CrawlErrorView::Fetch { url: head.url }],
        ),
        Some(body) => match scrape_spec(head.state, body) {
            ScrapedView::Fail(e) => (PassView { pending: rest, posts: d.posts }, seq![e]),
            ScrapedView::Yield { item, follow_ups, skipped } => (
                PassView {
                    pending: rest + follow_ups,
                    posts: match item {
                        Some(p) => d.posts.push(p),
                        None => d.posts,
                    },
                },
                skipped,
            ),
        },
    }
}

/// The pass that `outcomes` lead to from `d`, one completed request each;
/// outcomes after the frontier has drained change nothing.
pub open spec fn run(d: PassView, outcomes: Seq<Option<ResponseBodyView>>) -> PassView
    decreases outcomes.len(),
{
    if outcomes.len() == 0 {
        d
    } else {
        let next = if d.pending.len() == 0 {
            d
        } else {
            step(d, outcomes[0]).0
        };
        run(next, outcomes.drop_first())
    }
}

/// Two passes that start alike and meet the same responses gather the same
/// posts, as far as the responses fix them (title, URL, date), in the same
/// order, and so the same multiset of them.
pub proof fn lemma_pass_is_repeatable(
    a: PassView,
    b: PassView,
    outcomes: Seq<Option<ResponseBodyView>>,
)
    requires
        a == b,
    ensures
        run(a, outcomes).posts == run(b, outcomes).posts,
        run(a, outcomes).posts.to_multiset() == run(b, outcomes).posts.to_multiset(),
{
}

/// A pass that meets one more response goes on from the step that response
/// makes: each [`CrawlDriver::complete`] advances the pass along `run`.
pub proof fn lemma_run_one_more(
    d: PassView,
    outcome: Option<ResponseBodyView>,
    rest: Seq<Option<ResponseBodyView>>,
)
    requires
        d.pending.len() > 0,
    ensures
        run(d, seq![outcome] + rest) == run(step(d, outcome).0, rest),
{
    assert((seq![outcome] + rest).drop_first() =~= rest);
}

/// A request whose fetch fails reports that URL, adds no post, and leaves the
/// rest of the frontier to be made: the pass goes on.
pub proof fn lemma_failed_fetch_adds_nothing(d: PassView)
    requires
        d.pending.len() > 0,
    ensures
        step(d, None).0.posts == d.posts,
        step(d, None).0.pending == d.pending.drop_first(),
        step(d, None).1 == seq![CrawlErrorView::Fetch { url: d.pending[0].url }],
{
}

/// Every request in `p` is for an article.
pub open spec fn all_articles(p: Seq<FollowUpView>) -> bool {
    forall|i: int| 0 <= i < p.len() ==> (#[trigger] p[i]).state is Post
}

/// A decoded listing leads to article requests only.
pub proof fn lemma_listing_leads_to_articles(rows: Seq<TopNewsView>)
    ensures
        all_articles(listing_follow_ups(rows)),
    decreases rows.len(),
{
    if rows.len() > 0 {
        lemma_listing_leads_to_articles(rows.drop_last());
        let f = listing_follow_ups(rows);
        assert forall|i: int| 0 <= i < f.len() implies (#[trigger] f[i]).state is Post by {
            if i < listing_follow_ups(rows.drop_last()).len() {
            } else {
                assert(entry_follow_up(rows.last()) is Some);
            }
        }
    }
}

/// Once only article requests remain, each completed request, fetched or
/// failed, takes one request off the frontier and adds none.
pub proof fn lemma_article_step_drains(d: PassView, outcome: Option<ResponseBodyView>)
    requires
        d.pending.len() > 0,
        all_articles(d.pending),
    ensures
        step(d, outcome).0.pending == d.pending.drop_first(),
        all_articles(step(d, outcome).0.pending),
{
    assert(d.pending[0].state is Post);
    if let Some(body) = outcome {
        assert(step(d, outcome).0.pending =~= d.pending.drop_first());
    }
}

/// A pass whose frontier holds only article requests ends (its frontier is
/// empty) after as many completed requests as it holds, whichever of them
/// fail: a failed fetch never stops or stalls the pass.
pub proof fn lemma_articles_drain(d: PassView, outcomes: Seq<Option<ResponseBodyView>>)
    requires
        all_articles(d.pending),
        outcomes.len() >= d.pending.len(),
    ensures
        run(d, outcomes).pending.len() == 0,
    decreases outcomes.len(),
{
    if outcomes.len() > 0 {
        if d.pending.len() > 0 {
            lemma_article_step_drains(d, outcomes[0]);
        }
        let next = if d.pending.len() == 0 {
            d
        } else {
            step(d, outcomes[0]).0
        };
        lemma_articles_drain(next, outcomes.drop_first());
    }
}

impl View for CrawlDriver {
    type V = DriverView;

    closed spec fn view(&self) -> DriverView {
        DriverView {
            pending: follow_ups_view(self.frontier@).skip(self.made as int),
            posts: posts_view(self.posts@),
        }
    }
}

impl CrawlDriver {
    pub closed spec fn wf(&self) -> bool {
        self.made <= self.frontier@.len()
    }

    /// A pass whose frontier holds only the listing request.
    pub fn new() -> (r: CrawlDriver)
        ensures
            r.wf(),
            r@ == initial_view(),
    {
        let seed = FollowUp {
            url: String::from_str(TOP_LIST_URL),
            state: NhkWebEasyCrawlerState::TopList,
        };
        let frontier = vec![seed];
        let r = CrawlDriver { crawler: NhkWebEasyCrawler, frontier, made: 0, posts: Vec::new() };
        proof {
            assert(r@.pending =~= seq![seed_view()]);
            assert(r@.posts =~= Seq::<PostView>::empty());
        }
        r
    }

    /// Whether every discovered request has been made.
    pub fn is_done(&self) -> (r: bool)
        requires
            self.wf(),
        ensures
            r == (self@.pending.len() == 0),
    {
        self.made >= self.frontier.len()
    }

    /// The request to make next, if any is left.
    pub fn next_request(&self) -> (r: Option<FollowUp>)
        requires
            self.wf(),
        ensures
            match r {
                Some(f) => self@.pending.len() > 0 && f@ == self@.pending[0],
                None => self@.pending.len() == 0,
            },
    {
        if self.made < self.frontier.len() {
            let f = &self.frontier[self.made];
            Some(FollowUp { url: f.url.clone(), state: f.state.duplicate() })
        } else {
            None
        }
    }

    /// Records the outcome of the request that [`CrawlDriver::next_request`]
    /// gave: the fetched body, or `None` where the fetch failed. Returns the
    /// errors to report; a failure never stops the pass.
    pub fn complete(&mut self, outcome: Option<ResponseBody>) -> (errors: Vec<CrawlError>)
        requires
            old(self).wf(),
            old(self)@.pending.len() > 0,
        ensures
            final(self).wf(),
            old(self)@.posts.len() <= final(self)@.posts.len(),
            final(self)@.posts.take(old(self)@.posts.len() as int) == old(self)@.posts,
            (pass_of(final(self)@), errors_view(errors@)) == step(
                pass_of(old(self)@),
                match outcome {
                    Some(b) => Some(b@),
                    None => None,
                },
            ),
    {
        let ghost before = self@;
        assert(follow_ups_view(self.frontier@).len() == self.frontier@.len());
        assert(follow_ups_view(self.frontier@).skip(self.made as int).len() == self.frontier@.len()
            - self.made);
        let n = self.frontier.len();
        assert(self.made < n);
        let i = self.made;
        self.made = self.made + 1;
        proof {
            assert(self@.pending =~= before.pending.drop_first());
        }
        match outcome {
            None => {
                assert(self@.posts.take(before.posts.len() as int) =~= before.posts);
                let url = self.frontier[i].url.clone();
                let errors = vec![CrawlError::Fetch { url }];
                proof {
                    assert(errors_view(errors@) =~= seq![CrawlErrorView::Fetch { url: before.pending[0].url }]);
                }
                errors
            },
            Some(body) => {
                let scraped = self.crawler.scrape(&self.frontier[i].state, &body);
                match scraped {
                    Err(e) => {
                        assert(self@.posts.take(before.posts.len() as int) =~= before.posts);
                        let errors = vec![e];
                        proof {
                            assert(errors_view(errors@) =~= seq![e@]);
                        }
                        errors
                    },
                    Ok(Scraped { item, follow_ups, skipped }) => {
                        let mut follow_ups = follow_ups;
                        let ghost old_frontier = self.frontier@;
                        let ghost added = follow_ups@;
                        self.frontier.append(&mut follow_ups);
                        proof {
                            assert(follow_ups_view(self.frontier@) =~= follow_ups_view(old_frontier)
                                + follow_ups_view(added));
                            assert(self@.pending =~= before.pending.drop_first() + follow_ups_view(
                                added,
                            ));
                        }
                        match item {
                            Some(p) => {
                                self.posts.push(p);
                                proof {
                                    assert(self@.posts =~= before.posts.push(p@));
                                    assert(pass_of(self@).posts =~= pass_of(before).posts.push(
                                        meta(p@),
                                    ));
                                    assert(self@.posts.take(before.posts.len() as int)
                                        =~= before.posts);
                                }
                            },
                            None => {
                                assert(self@.posts.take(before.posts.len() as int)
                                    =~= before.posts);
                            },
                        }
                        skipped
                    },
                }
            },
        }
    }

    /// The posts gathered by the pass, in the order they were produced.
    pub fn into_posts(self) -> (r: Vec<Post>)
        ensures
            posts_view(r@) == self@.posts,
    {
        self.posts
    }
}

} // verus!
