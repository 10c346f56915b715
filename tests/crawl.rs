use nhk_easy_rss::driver::CrawlDriver;
use nhk_easy_rss::feed::{FeedCache, FeedSnapshot, FEED_DESCRIPTION, FEED_LINK, FEED_TITLE};
use nhk_easy_rss::post_crawler::{
    article_post_from, construct_news_url, scrape_article, scrape_listing, CrawlError, NhkWebEasyCrawler,
    NhkWebEasyCrawlerState, ResponseBody, TopNews, TOP_LIST_URL,
};
use nhk_easy_rss::post::Post;
use nhk_easy_rss::timestamp::{convert_pub_date, pad_day, timestamp_shape_ok};

fn row(id: &str, time: &str, title: &str) -> TopNews {
    TopNews {
        news_id: id.to_string(),
        news_prearranged_time: time.to_string(),
        title: title.to_string(),
    }
}

fn page(body: &str) -> String {
    format!(
        "<html><head><title>t</title></head><body><div id=\"js-article-body\">{}</div></body></html>",
        body
    )
}

const NO_BODY: &str = "<html><body><p>gone</p></body></html>";

#[test]
fn news_url_is_built_from_the_id() {
    assert_eq!(
        construct_news_url("k10014321"),
        "https://www3.nhk.or.jp/news/easy/k10014321/k10014321.html"
    );
}

#[test]
fn timestamp_converts_to_rfc2822_at_plus_nine() {
    assert_eq!(
        convert_pub_date("2024-01-02 09:00:00").as_deref(),
        Some("Tue, 02 Jan 2024 09:00:00 +0900")
    );
}

#[test]
fn timestamp_of_another_shape_is_refused() {
    assert!(!timestamp_shape_ok("2024-1-02 09:00:00"));
    assert_eq!(convert_pub_date("2024-1-02 09:00:00"), None);
    assert_eq!(convert_pub_date("2024/01/02 09:00:00"), None);
    assert_eq!(convert_pub_date(""), None);
}

#[test]
fn timestamp_of_no_real_day_is_refused() {
    assert!(timestamp_shape_ok("2024-02-30 09:00:00"));
    assert_eq!(convert_pub_date("2024-02-30 09:00:00"), None);
}

#[test]
fn listing_makes_one_request_per_dated_row() {
    let rows = vec![
        row("a1", "2024-01-02 09:00:00", "First"),
        row("b2", "not a time", "Second"),
        row("c3", "2024-03-04 18:30:15", "Third"),
    ];
    let (follow_ups, skipped) = scrape_listing(&rows);
    assert_eq!(follow_ups.len(), 2);
    assert_eq!(follow_ups[0].url, "https://www3.nhk.or.jp/news/easy/a1/a1.html");
    assert_eq!(follow_ups[1].url, "https://www3.nhk.or.jp/news/easy/c3/c3.html");
    match &follow_ups[1].state {
        NhkWebEasyCrawlerState::Post { title, id, pub_date } => {
            assert_eq!(title, "Third");
            assert_eq!(id, "c3");
            assert_eq!(pub_date, "Mon, 04 Mar 2024 18:30:15 +0900");
        }
        NhkWebEasyCrawlerState::TopList => panic!("expected an article request"),
    }
    assert_eq!(skipped.len(), 1);
    assert!(matches!(&skipped[0], CrawlError::TimestampParse { id } if id == "b2"));
}

#[test]
fn undecodable_listing_fails_the_step() {
    let crawler = NhkWebEasyCrawler;
    let r = crawler.scrape(&NhkWebEasyCrawlerState::TopList, &ResponseBody::Listing(None));
    assert!(matches!(r, Err(CrawlError::ListingDecode)));
}

#[test]
fn empty_listing_leads_nowhere() {
    let crawler = NhkWebEasyCrawler;
    let r = crawler.scrape(&NhkWebEasyCrawlerState::TopList, &ResponseBody::Listing(Some(vec![])));
    let s = r.ok().unwrap();
    assert!(s.item.is_none());
    assert!(s.follow_ups.is_empty());
    assert!(s.skipped.is_empty());
}

#[test]
fn article_with_body_yields_its_post() {
    let crawler = NhkWebEasyCrawler;
    let state = NhkWebEasyCrawlerState::Post {
        title: "Title".to_string(),
        id: "x9".to_string(),
        pub_date: "Tue, 02 Jan 2024 09:00:00 +0900".to_string(),
    };
    let r = crawler.scrape(&state, &ResponseBody::Page(page("<p>Hello</p>")));
    let s = r.ok().unwrap();
    assert!(s.follow_ups.is_empty());
    let p = s.item.unwrap();
    assert_eq!(p.title, "Title");
    assert_eq!(p.content, "<p>Hello</p>");
    assert_eq!(p.url, "https://www3.nhk.or.jp/news/easy/x9/x9.html");
    assert_eq!(p.pub_date, "Tue, 02 Jan 2024 09:00:00 +0900");
}

#[test]
fn article_without_body_yields_nothing() {
    let crawler = NhkWebEasyCrawler;
    let state = NhkWebEasyCrawlerState::Post {
        title: "Title".to_string(),
        id: "x9".to_string(),
        pub_date: "d".to_string(),
    };
    let s = crawler.scrape(&state, &ResponseBody::Page(NO_BODY.to_string())).ok().unwrap();
    assert!(s.item.is_none());
    assert!(s.follow_ups.is_empty());
    let direct = scrape_article(
        &"Title".to_string(),
        &"x9".to_string(),
        &"d".to_string(),
        &NO_BODY.to_string(),
    );
    assert!(direct.is_none());
}

/// Runs one pass, answering each article request from `pages` (by URL; a
/// missing URL is a failed fetch), and returns the posts and reported errors.
fn run_pass(rows: Vec<TopNews>, pages: &[(&str, &str)]) -> (Vec<Post>, Vec<CrawlError>) {
    let mut driver = NhkWebEasyCrawler::new();
    let mut errors = Vec::new();
    while let Some(request) = driver.next_request() {
        let outcome = match request.state {
            NhkWebEasyCrawlerState::TopList => {
                assert_eq!(request.url, TOP_LIST_URL);
                Some(ResponseBody::Listing(Some(rows.iter().map(|r| row(&r.news_id, &r.news_prearranged_time, &r.title)).collect())))
            }
            NhkWebEasyCrawlerState::Post { .. } => pages
                .iter()
                .find(|(url, _)| *url == request.url)
                .map(|(_, html)| ResponseBody::Page(html.to_string())),
        };
        errors.extend(driver.complete(outcome));
    }
    assert!(driver.is_done());
    (driver.into_posts(), errors)
}

fn two_rows() -> Vec<TopNews> {
    vec![
        row("n1", "2024-01-02 09:00:00", "One"),
        row("n2", "2024-01-03 10:15:00", "Two"),
    ]
}

#[test]
fn full_pass_publishes_both_posts() {
    let one = page("<p>one</p>");
    let two = page("<p>two</p>");
    let pages = [
        ("https://www3.nhk.or.jp/news/easy/n1/n1.html", one.as_str()),
        ("https://www3.nhk.or.jp/news/easy/n2/n2.html", two.as_str()),
    ];
    let (posts, errors) = run_pass(two_rows(), &pages);
    assert!(errors.is_empty());
    let mut cache = FeedCache::new();
    assert!(cache.read().items.is_empty());
    cache.publish(FeedSnapshot::from_posts(posts));
    let snapshot = cache.read();
    assert_eq!(snapshot.title, FEED_TITLE);
    assert_eq!(snapshot.link, FEED_LINK);
    assert_eq!(snapshot.description, FEED_DESCRIPTION);
    assert_eq!(snapshot.items.len(), 2);
    assert_eq!(snapshot.items[0].title, "One");
    assert_eq!(snapshot.items[0].content, "<p>one</p>");
    assert_eq!(snapshot.items[1].title, "Two");
    assert_eq!(snapshot.items[1].pub_date, "Wed, 03 Jan 2024 10:15:00 +0900");
}

#[test]
fn failed_article_fetch_leaves_one_post() {
    let one = page("<p>one</p>");
    let pages = [("https://www3.nhk.or.jp/news/easy/n1/n1.html", one.as_str())];
    let (posts, errors) = run_pass(two_rows(), &pages);
    assert_eq!(posts.len(), 1);
    assert_eq!(posts[0].url, "https://www3.nhk.or.jp/news/easy/n1/n1.html");
    assert!(posts.iter().all(|p| !p.url.contains("n2") && p.title != "Two"));
    assert_eq!(errors.len(), 1);
    assert!(matches!(&errors[0], CrawlError::Fetch { url } if url == "https://www3.nhk.or.jp/news/easy/n2/n2.html"));
    let snapshot = FeedSnapshot::from_posts(posts);
    assert_eq!(snapshot.items.len(), 1);
}

#[test]
fn failed_listing_fetch_ends_the_pass_empty() {
    let mut driver = CrawlDriver::new();
    assert!(!driver.is_done());
    let errors = driver.complete(None);
    assert_eq!(errors.len(), 1);
    assert!(matches!(&errors[0], CrawlError::Fetch { url } if url == TOP_LIST_URL));
    assert!(driver.is_done());
    assert!(driver.into_posts().is_empty());
}

#[test]
fn repeated_passes_gather_the_same_posts() {
    let one = page("<p>one</p>");
    let pages = [
        ("https://www3.nhk.or.jp/news/easy/n1/n1.html", one.as_str()),
        ("https://www3.nhk.or.jp/news/easy/n2/n2.html", NO_BODY),
    ];
    let (a, _) = run_pass(two_rows(), &pages);
    let (b, _) = run_pass(two_rows(), &pages);
    let key = |p: &Post| (p.title.clone(), p.url.clone(), p.content.clone(), p.pub_date.clone());
    let mut ka: Vec<_> = a.iter().map(key).collect();
    let mut kb: Vec<_> = b.iter().map(key).collect();
    ka.sort();
    kb.sort();
    assert_eq!(ka.len(), 1);
    assert_eq!(ka, kb);
}

#[test]
fn cache_read_sees_whole_snapshots() {
    let mut cache = FeedCache::new();
    let before = cache.read();
    let post = Post {
        title: "T".to_string(),
        content: "C".to_string(),
        url: "U".to_string(),
        pub_date: "D".to_string(),
    };
    cache.publish(FeedSnapshot::from_posts(vec![post.duplicate()]));
    let after = cache.read();
    assert!(before.items.is_empty());
    assert_eq!(after.items.len(), 1);
    assert_eq!(after.items[0].title, "T");
    assert_eq!(FeedSnapshot::empty().items.len(), 0);
}

#[test]
fn one_digit_day_gets_a_leading_zero() {
    assert_eq!(pad_day("Tue, 2 Jan 2024 09:00:00 +0900".to_string()), "Tue, 02 Jan 2024 09:00:00 +0900");
    assert_eq!(pad_day("Fri, 12 Jan 2024 09:00:00 +0900".to_string()), "Fri, 12 Jan 2024 09:00:00 +0900");
    assert_eq!(pad_day("short".to_string()), "short");
}

#[test]
fn two_digit_day_converts_unchanged() {
    assert_eq!(
        convert_pub_date("2023-12-31 23:59:59").as_deref(),
        Some("Sun, 31 Dec 2023 23:59:59 +0900")
    );
}

#[test]
fn selected_body_becomes_the_post_content() {
    let p = article_post_from(
        &"T".to_string(),
        &"k1".to_string(),
        &"D".to_string(),
        Some("<p>x</p>".to_string()),
    )
    .unwrap();
    assert_eq!(p.title, "T");
    assert_eq!(p.content, "<p>x</p>");
    assert_eq!(p.url, "https://www3.nhk.or.jp/news/easy/k1/k1.html");
    assert_eq!(p.pub_date, "D");
    assert!(article_post_from(&"T".to_string(), &"k1".to_string(), &"D".to_string(), None).is_none());
}
