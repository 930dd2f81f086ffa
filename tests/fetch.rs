use podcast_player_api::config::PodcastPlayerApiConfig;
use podcast_player_api::error::{CustomError, FeedError};
use podcast_player_api::fetcher::{is_redirect, select_scheme, FetchError, FetchStep, RedirectChain, Scheme, MAX_HOPS};
use podcast_player_api::updater::{RetryDecision, RetryPolicy, Updater};

#[test]
fn two_redirects_then_body() {
    let mut chain = RedirectChain::new("http://a".into());
    assert!(matches!(chain.respond(301, Some("https://b".into())), Ok(FetchStep::Follow(u)) if u == "https://b"));
    assert!(matches!(chain.respond(302, Some("https://c".into())), Ok(FetchStep::Follow(u)) if u == "https://c"));
    assert!(matches!(chain.respond(200, None), Ok(FetchStep::Finished(true))));
    let visited: Vec<(&str, u16)> = chain.visited.iter().map(|(u, s)| (u.as_str(), *s)).collect();
    assert_eq!(visited, vec![("http://a", 301), ("https://b", 302), ("https://c", 200)]);
}

#[test]
fn non_success_status_ends_without_body() {
    let mut chain = RedirectChain::new("http://a".into());
    assert!(matches!(chain.respond(404, None), Ok(FetchStep::Finished(false))));
    assert_eq!(chain.visited.len(), 1);
}

#[test]
fn redirect_without_location_fails() {
    let mut chain = RedirectChain::new("http://a".into());
    assert!(matches!(chain.respond(307, None), Err(FetchError::MissingLocation)));
}

#[test]
fn redirect_loop_is_cut() {
    let mut chain = RedirectChain::new("http://a".into());
    let mut follows = 0;
    loop {
        match chain.respond(308, Some("http://a".into())) {
            Ok(FetchStep::Follow(_)) => follows += 1,
            Err(FetchError::TooManyRedirects) => break,
            _ => panic!("unexpected step"),
        }
    }
    assert_eq!(follows, MAX_HOPS - 1);
    assert_eq!(chain.visited.len(), MAX_HOPS);
}

#[test]
fn redirect_statuses() {
    for s in [301u16, 302, 307, 308] {
        assert!(is_redirect(s));
    }
    for s in [200u16, 303, 304, 404] {
        assert!(!is_redirect(s));
    }
}

#[test]
fn schemes() {
    assert_eq!(select_scheme("http://example.com/feed"), Ok(Scheme::Http));
    assert_eq!(select_scheme("https://example.com/feed"), Ok(Scheme::Https));
    assert_eq!(select_scheme("ftp://example.com/feed"), Err(FetchError::UnsupportedScheme));
    assert_eq!(select_scheme("/feed.xml"), Err(FetchError::MissingScheme));
    assert_eq!(select_scheme("http://exa mple.com"), Err(FetchError::InvalidUri));
}

#[test]
fn retry_policy() {
    let p = RetryPolicy { max_attempts: 2, delay_secs: 10 };
    assert_eq!(p.after_failure(1), RetryDecision::Retry(10));
    assert_eq!(p.after_failure(2), RetryDecision::GiveUp);
}

#[test]
fn updater_defaults() {
    let u = Updater::new("host=localhost");
    assert_eq!(u.connection_string(), "host=localhost");
    assert_eq!(u.retry_policy(), RetryPolicy { max_attempts: 2, delay_secs: 10 });
    assert_eq!(u.interval(), 3600);
    let fast = Updater::with_schedule("c", RetryPolicy { max_attempts: 3, delay_secs: 0 }, 1);
    assert_eq!(fast.interval(), 1);
    assert_eq!(fast.retry_policy().after_failure(2), RetryDecision::Retry(0));
}

#[test]
fn error_values() {
    let e = CustomError::new("broken".to_string());
    assert_eq!(e.msg(), "broken");
    assert_eq!(FeedError::Fetch(FetchError::Transport), FeedError::Fetch(FetchError::Transport));
    let c = PodcastPlayerApiConfig { api_connection: "a".into(), updater_connection: "u".into() };
    assert_eq!(c.updater_connection, "u");
}
