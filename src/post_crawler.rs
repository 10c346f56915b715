use vstd::prelude::*;
use vstd::string::*;
use crate::post::{Post, PostView};
use crate::timestamp::{convert_pub_date, converted_pub_date};
use crate::driver::{initial_view, CrawlDriver};

verus! {

/// Where the site serves its articles and its listing.
pub const NEWS_BASE: &'static str = "https://www3.nhk.or.jp/news/easy/";

/// The listing of current articles, the seed of every crawl pass.
pub const TOP_LIST_URL: &'static str = "https://www3.nhk.or.jp/news/easy/top-list.json";

/// The host that every request of a crawl goes to.
pub const ALLOWED_HOST: &'static str = "www3.nhk.or.jp";

/// The URL of the article page with the given id: `{base}{id}/{id}.html`.
pub open spec fn news_url(id: Seq<char>) -> Seq<char> {
    NEWS_BASE@ + id + "/"@ + id + ".html"@
}

pub fn construct_news_url(news_id: &str) -> (r: String)
    ensures
        r@ == news_url(news_id@),
{
    let mut url = String::from_str(NEWS_BASE);
    url.append(news_id);
    url.append("/");
    url.append(news_id);
    url.append(".html");
    url
}


/// The crawler of one pass; its behaviour is the pure step [`NhkWebEasyCrawler::scrape`].
pub struct NhkWebEasyCrawler;

/// What a pending request is for.
pub enum NhkWebEasyCrawlerState {
    /// The single seed request, to the listing.
    TopList,
    /// One article, with the metadata that the listing already gave.
    Post { title: String, id: String, pub_date: String },
}

pub enum CrawlStateView {
    TopList,
    Post { title: Seq<char>, id: Seq<char>, pub_date: Seq<char> },
}

impl View for NhkWebEasyCrawlerState {
    type V = CrawlStateView;

    open spec fn view(&self) -> CrawlStateView {
        match self {
            NhkWebEasyCrawlerState::TopList => CrawlStateView::TopList,
            NhkWebEasyCrawlerState::Post { title, id, pub_date } => CrawlStateView::Post {
                title: title@,
                id: id@,
                pub_date: pub_date@,
            },
        }
    }
}

impl NhkWebEasyCrawlerState {
    pub fn duplicate(&self) -> (r: NhkWebEasyCrawlerState)
        ensures
            r@ == self@,
    {
        match self {
            NhkWebEasyCrawlerState::TopList => NhkWebEasyCrawlerState::TopList,
            NhkWebEasyCrawlerState::Post { title, id, pub_date } => NhkWebEasyCrawlerState::Post {
                title: title.clone(),
                id: id.clone(),
                pub_date: pub_date.clone(),
            },
        }
    }
}

/// One row of the listing.
pub struct TopNews {
    pub news_id: String,
    pub news_prearranged_time: String,
    pub title: String,
}

pub struct TopNewsView {
    pub news_id: Seq<char>,
    pub news_prearranged_time: Seq<char>,
    pub title: Seq<char>,
}

impl View for TopNews {
    type V = TopNewsView;

    open spec fn view(&self) -> TopNewsView {
        TopNewsView {
            news_id: self.news_id@,
            news_prearranged_time: self.news_prearranged_time@,
            title: self.title@,
        }
    }
}

/// A request to make next: where, and what for.
pub struct FollowUp {
    pub url: String,
    pub state: NhkWebEasyCrawlerState,
}

pub struct FollowUpView {
    pub url: Seq<char>,
    pub state: CrawlStateView,
}

impl View for FollowUp {
    type V = FollowUpView;

    open spec fn view(&self) -> FollowUpView {
        FollowUpView { url: self.url@, state: self.state@ }
    }
}

/// The body of a fetched response, as the crawl reads it: the listing decoded
/// into its rows (`None` where it did not decode), or a page's markup.
pub enum ResponseBody {
    Listing(Option<Vec<TopNews>>),
    Page(String),
}

/// A failure that the crawl reports without stopping.
pub enum CrawlError {
    /// The listing did not decode: the pass discovers no article.
    ListingDecode,
    /// The listing row with this id carries a timestamp that does not convert.
    TimestampParse { id: String },
    /// The request to this URL failed in transport or with a non-success status.
    Fetch { url: String },
}

pub enum CrawlErrorView {
    ListingDecode,
    TimestampParse { id: Seq<char> },
    Fetch { url: Seq<char> },
}

impl View for CrawlError {
    type V = CrawlErrorView;

    open spec fn view(&self) -> CrawlErrorView {
        match self {
            CrawlError::ListingDecode => CrawlErrorView::ListingDecode,
            CrawlError::TimestampParse { id } => CrawlErrorView::TimestampParse { id: id@ },
            CrawlError::Fetch { url } => CrawlErrorView::Fetch { url: url@ },
        }
    }
}

/// What one response yields: at most one post, the requests it leads to, and
/// the listing rows that were skipped.
pub struct Scraped {
    pub item: Option<Post>,
    pub follow_ups: Vec<FollowUp>,
    pub skipped: Vec<CrawlError>,
}

/// The follow-up request that a listing row leads to, if its timestamp converts.
pub open spec fn entry_follow_up(e: TopNewsView) -> Option<FollowUpView> {
    match converted_pub_date(e.news_prearranged_time) {
        Some(d) => Some(
            FollowUpView {
                url: news_url(e.news_id),
                state: CrawlStateView::Post { title: e.title, id: e.news_id, pub_date: d },
            },
        ),
        None => None,
    }
}

/// The error that a listing row is skipped with, if its timestamp does not convert.
pub open spec fn entry_skip(e: TopNewsView) -> Option<CrawlErrorView> {
    match converted_pub_date(e.news_prearranged_time) {
        Some(d) => None,
        None => Some(CrawlErrorView::TimestampParse { id: e.news_id }),
    }
}

/// The follow-ups of the rows whose timestamp converts, in the listing's order.
pub open spec fn listing_follow_ups(rows: Seq<TopNewsView>) -> Seq<FollowUpView> {
    rows.filter_map(|e: TopNewsView| entry_follow_up(e))
}

/// The errors of the rows whose timestamp does not convert, in the listing's order.
pub open spec fn listing_skips(rows: Seq<TopNewsView>) -> Seq<CrawlErrorView> {
    rows.filter_map(|e: TopNewsView| entry_skip(e))
}

pub open spec fn rows_view(entries: Seq<TopNews>) -> Seq<TopNewsView> {
    entries.map_values(|e: TopNews| e@)
}

pub open spec fn follow_ups_view(f: Seq<FollowUp>) -> Seq<FollowUpView> {
    f.map_values(|x: FollowUp| x@)
}

pub open spec fn errors_view(f: Seq<CrawlError>) -> Seq<CrawlErrorView> {
    f.map_values(|x: CrawlError| x@)
}

/// Whether the HTML document `html` has an element that the CSS selector
/// `selector` matches (false where the selector does not parse).
pub uninterp spec fn has_match(html: Seq<char>, selector: Seq<char>) -> bool;

/// The selector of the element that holds an article's body.
pub const ARTICLE_BODY_SELECTOR: &'static str = "#js-article-body";

/// Relies on scraper (as re-exported by voyager): `Selector::parse`,
/// `Html::parse_document`, `Html::select`, and `ElementRef::inner_html` of the
/// first match. Whether an element matches depends on the document and the
/// selector alone; the markup written out does not (scraper writes attributes
/// in the order of a randomly seeded map), so nothing is said of it.
#[verifier::external_body]
fn select_first_inner_html(html: &str, selector: &str) -> (r: Option<String>)
    ensures
        r is Some <==> has_match(html@, selector@),
{
    let selector = voyager::scraper::Selector::parse(selector).ok()?;
    let document = voyager::scraper::Html::parse_document(html);
    let first = document.select(&selector).next();
    first.map(|element| element.inner_html())
}

/// What the crawl fixes of a post: its title, its URL and its date. Its
/// content is the markup that the page's body container is written out as.
pub struct PostMeta {
    pub title: Seq<char>,
    pub url: Seq<char>,
    pub pub_date: Seq<char>,
}

pub open spec fn meta(p: PostView) -> PostMeta {
    PostMeta { title: p.title, url: p.url, pub_date: p.pub_date }
}

/// The metadata of the post that an article page yields: the page yields one
/// exactly where it has the body container, with the request's metadata.
pub open spec fn article_meta(
    title: Seq<char>,
    id: Seq<char>,
    pub_date: Seq<char>,
    html: Seq<char>,
) -> Option<PostMeta> {
    if has_match(html, ARTICLE_BODY_SELECTOR@) {
        Some(PostMeta { title, url: news_url(id), pub_date })
    } else {
        None
    }
}

/// What a response yields, as a post's metadata (or none), follow-ups, and
/// skipped rows; `Fail` where the listing did not decode.
pub enum ScrapedView {
    Yield { item: Option<PostMeta>, follow_ups: Seq<FollowUpView>, skipped: Seq<CrawlErrorView> },
    Fail(CrawlErrorView),
}

pub open spec fn scraped_view(r: Result<Scraped, CrawlError>) -> ScrapedView {
    match r {
        Ok(s) => ScrapedView::Yield {
            item: match s.item {
                Some(p) => Some(meta(p@)),
                None => None,
            },
            follow_ups: follow_ups_view(s.follow_ups@),
            skipped: errors_view(s.skipped@),
        },
        Err(e) => ScrapedView::Fail(e@),
    }
}

/// The crawl step: what the response `body` to a request made for `state` yields.
/// - For the listing: one follow-up per row whose timestamp converts, in the
///   listing's order, to `{base}{id}/{id}.html`, and the other rows as skipped.
///   A listing that did not decode (or came as a page) fails the step.
/// - For an article: a post with the carried metadata where the page has the
///   body container; nothing otherwise. No follow-ups.
pub open spec fn scrape_spec(state: CrawlStateView, body: ResponseBodyView) -> ScrapedView {
    match state {
        CrawlStateView::TopList => match body {
            ResponseBodyView::Listing(Some(rows)) => ScrapedView::Yield {
                item: None,
                follow_ups: listing_follow_ups(rows),
                skipped: listing_skips(rows),
            },
            _ => ScrapedView::Fail(CrawlErrorView::ListingDecode),
        },
        CrawlStateView::Post { title, id, pub_date } => ScrapedView::Yield {
            item: match body {
                ResponseBodyView::Page(html) => article_meta(title, id, pub_date, html),
                ResponseBodyView::Listing(_) => None,
            },
            follow_ups: Seq::empty(),
            skipped: Seq::empty(),
        },
    }
}

pub enum ResponseBodyView {
    Listing(Option<Seq<TopNewsView>>),
    Page(Seq<char>),
}

impl View for ResponseBody {
    type V = ResponseBodyView;

    open spec fn view(&self) -> ResponseBodyView {
        match self {
            ResponseBody::Listing(Some(rows)) => ResponseBodyView::Listing(Some(rows_view(rows@))),
            ResponseBody::Listing(None) => ResponseBodyView::Listing(None),
            ResponseBody::Page(html) => ResponseBodyView::Page(html@),
        }
    }
}

/// Whether a listing row's timestamp converts.
pub open spec fn row_is_dated(e: TopNewsView) -> bool {
    converted_pub_date(e.news_prearranged_time).is_some()
}

/// The article request of a row whose timestamp converts.
pub open spec fn article_request(e: TopNewsView) -> FollowUpView {
    FollowUpView {
        url: news_url(e.news_id),
        state: CrawlStateView::Post {
            title: e.title,
            id: e.news_id,
            pub_date: converted_pub_date(e.news_prearranged_time).unwrap(),
        },
    }
}

/// A decoded listing leads to exactly one article request per row whose
/// timestamp converts, in the listing's order, each to `{base}{id}/{id}.html`.
pub proof fn lemma_listing_one_request_per_dated_row(rows: Seq<TopNewsView>)
    ensures
        listing_follow_ups(rows) == rows.filter(|e: TopNewsView| row_is_dated(e)).map_values(
            |e: TopNewsView| article_request(e),
        ),
        forall|i: int|
            0 <= i < listing_follow_ups(rows).len() ==> (#[trigger] listing_follow_ups(rows)[i]).url
                == news_url(rows.filter(|e: TopNewsView| row_is_dated(e))[i].news_id),
    decreases rows.len(),
{
    reveal(Seq::filter);
    if rows.len() > 0 {
        lemma_listing_one_request_per_dated_row(rows.drop_last());
    }
    assert(listing_follow_ups(rows) =~= rows.filter(|e: TopNewsView| row_is_dated(e)).map_values(
        |e: TopNewsView| article_request(e),
    ));
}

/// An article page that holds the body container yields exactly one post,
/// which carries the title and publication date of the request, and no
/// follow-ups.
pub proof fn lemma_article_keeps_metadata(
    title: Seq<char>,
    id: Seq<char>,
    pub_date: Seq<char>,
    html: Seq<char>,
)
    requires
        has_match(html, ARTICLE_BODY_SELECTOR@),
    ensures
        ({
            let r = scrape_spec(
                CrawlStateView::Post { title, id, pub_date },
                ResponseBodyView::Page(html),
            );
            &&& r is Yield
            &&& r->item is Some
            &&& r->item->0.title == title
            &&& r->item->0.pub_date == pub_date
            &&& r->item->0.url == news_url(id)
            &&& r->follow_ups.len() == 0
        }),
{
}

/// An article page without the body container yields no post and no follow-ups.
pub proof fn lemma_article_without_body(
    title: Seq<char>,
    id: Seq<char>,
    pub_date: Seq<char>,
    html: Seq<char>,
)
    requires
        !has_match(html, ARTICLE_BODY_SELECTOR@),
    ensures
        scrape_spec(CrawlStateView::Post { title, id, pub_date }, ResponseBodyView::Page(html))
            == (ScrapedView::Yield { item: None, follow_ups: Seq::empty(), skipped: Seq::empty() }),
{
}

impl NhkWebEasyCrawler {
    /// Starts a crawl pass: its frontier holds the listing request alone.
    pub fn new() -> (r: CrawlDriver)
        ensures
            r.wf(),
            r@ == initial_view(),
    {
        CrawlDriver::new()
    }

    /// Decides what the response `body` to a request made for `state` yields.
    pub fn scrape(&self, state: &NhkWebEasyCrawlerState, body: &ResponseBody) -> (r: Result<
        Scraped,
        CrawlError,
    >)
        ensures
            scraped_view(r) == scrape_spec(state@, body@),
    {
        match state {
            NhkWebEasyCrawlerState::TopList => match body {
                ResponseBody::Listing(Some(rows)) => {
                    let (follow_ups, skipped) = scrape_listing(rows);
                    Ok(Scraped { item: None, follow_ups, skipped })
                },
                _ => Err(CrawlError::ListingDecode),
            },
            NhkWebEasyCrawlerState::Post { title, id, pub_date } => {
                let item = match body {
                    ResponseBody::Page(html) => scrape_article(title, id, pub_date, html),
                    ResponseBody::Listing(_) => None,
                };
                let follow_ups: Vec<FollowUp> = Vec::new();
                let skipped: Vec<CrawlError> = Vec::new();
                proof {
                    assert(follow_ups_view(follow_ups@) =~= Seq::empty());
                    assert(errors_view(skipped@) =~= Seq::empty());
                }
                Ok(Scraped { item, follow_ups, skipped })
            },
        }
    }
}

/// The follow-ups and the skipped rows of a decoded listing.
pub fn scrape_listing(rows: &Vec<TopNews>) -> (r: (Vec<FollowUp>, Vec<CrawlError>))
    ensures
        follow_ups_view(r.0@) == listing_follow_ups(rows_view(rows@)),
        errors_view(r.1@) == listing_skips(rows_view(rows@)),
{
    let mut follow_ups: Vec<FollowUp> = Vec::new();
    let mut skipped: Vec<CrawlError> = Vec::new();
    let mut i: usize = 0;
    while i < rows.len()
        invariant
            0 <= i <= rows@.len(),
            follow_ups_view(follow_ups@) == listing_follow_ups(rows_view(rows@.take(i as int))),
            errors_view(skipped@) == listing_skips(rows_view(rows@.take(i as int))),
        decreases rows@.len() - i,
    {
        let row = &rows[i];
        let ghost before = rows_view(rows@.take(i as int));
        let ghost after = rows_view(rows@.take(i as int + 1));
        proof {
            assert(after.drop_last() =~= before);
            assert(after.last() == row@);
        }
        match convert_pub_date(row.news_prearranged_time.as_str()) {
            Some(pub_date) => {
                let url = construct_news_url(row.news_id.as_str());
                let state = NhkWebEasyCrawlerState::Post {
                    title: row.title.clone(),
                    id: row.news_id.clone(),
                    pub_date,
                };
                follow_ups.push(FollowUp { url, state });
                proof {
                    assert(follow_ups_view(follow_ups@) =~= listing_follow_ups(after));
                    assert(errors_view(skipped@) =~= listing_skips(after));
                }
            },
            None => {
                skipped.push(CrawlError::TimestampParse { id: row.news_id.clone() });
                proof {
                    assert(follow_ups_view(follow_ups@) =~= listing_follow_ups(after));
                    assert(errors_view(skipped@) =~= listing_skips(after));
                }
            },
        }
        i = i + 1;
    }
    proof {
        assert(rows@.take(rows@.len() as int) =~= rows@);
    }
    (follow_ups, skipped)
}

/// The post made of the carried metadata and the selected body markup `body`;
/// none where the page had no body container.
pub fn article_post_from(
    title: &String,
    id: &String,
    pub_date: &String,
    body: Option<String>,
) -> (r: Option<Post>)
    ensures
        match body {
            Some(c) => r matches Some(p) && p@ == (PostView {
                title: title@,
                content: c@,
                url: news_url(id@),
                pub_date: pub_date@,
            }),
            None => r is None,
        },
{
    match body {
        Some(content) => Some(
            Post {
                title: title.clone(),
                content,
                url: construct_news_url(id.as_str()),
                pub_date: pub_date.clone(),
            },
        ),
        None => None,
    }
}

/// The post that an article page yields: one exactly where the page holds the
/// body container, with the carried title and date and the article's URL.
pub fn scrape_article(title: &String, id: &String, pub_date: &String, html: &String) -> (r: Option<
    Post,
>)
    ensures
        match r {
            Some(p) => article_meta(title@, id@, pub_date@, html@) == Some(meta(p@)),
            None => article_meta(title@, id@, pub_date@, html@).is_none(),
        },
{
    let body = select_first_inner_html(html.as_str(), ARTICLE_BODY_SELECTOR);
    article_post_from(title, id, pub_date, body)
}

} // verus!
