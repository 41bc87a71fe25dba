use chat_hub::badge::{process_message_badges, BadgeCache, BadgeSet, BadgeVersion, RawBadge};
use chat_hub::resolver::{
    badge_request, check_body, check_status, ensure_badges_initialized, initialization_notice,
    initialize_badges, BadgeNotice, FetchError, InitError, StartLatch,
};

fn sub_catalog() -> Vec<BadgeSet> {
    vec![BadgeSet {
        set_id: "sub".to_string(),
        versions: vec![BadgeVersion {
            id: "0".to_string(),
            image_url_1x: "url1x".to_string(),
            image_url_2x: "url2x".to_string(),
            image_url_4x: "url4x".to_string(),
            title: "Subscriber".to_string(),
            description: "Subscriber badge".to_string(),
        }],
    }]
}

#[test]
fn channel_succeeds_global_fails() {
    let mut cache = BadgeCache::new();
    let outcome = initialize_badges(
        &mut cache,
        Ok(sub_catalog()),
        Err(FetchError::Network("connection refused".to_string())),
    );
    assert_eq!(outcome, Err(InitError::FetchIncomplete));
    assert_eq!(cache.get_badge_info("sub", "0").unwrap().title, "Subscriber");
    assert_eq!(cache.get_badge_info("sub", "0").unwrap().image_url, "url1x");
    let shown = process_message_badges(
        &cache,
        &vec![RawBadge { set_id: "bits".to_string(), id: "1".to_string() }],
    );
    assert_eq!(shown.len(), 1);
    assert_eq!(shown[0].id, "bits");
    assert_eq!(shown[0].version, "1");
    assert_eq!(shown[0].title, "bits");
    assert_eq!(shown[0].image_url, "https://static-cdn.jtvnw.net/badges/v1/1/1/1");
}

#[test]
fn global_succeeds_channel_fails() {
    let mut cache = BadgeCache::new();
    let outcome =
        initialize_badges(&mut cache, Err(FetchError::ApiStatus("401 Unauthorized".to_string())), Ok(sub_catalog()));
    assert_eq!(outcome, Err(InitError::FetchIncomplete));
    assert_eq!(cache.global_badges.len(), 1);
    assert_eq!(cache.channel_badges.len(), 0);
    assert_eq!(cache.get_badge_info("sub", "0").unwrap().title, "Subscriber");
}

#[test]
fn both_fetches_succeed() {
    let mut cache = BadgeCache::new();
    assert_eq!(initialize_badges(&mut cache, Ok(sub_catalog()), Ok(Vec::new())), Ok(()));
    assert!(cache.get_badge_info("sub", "0").is_some());
}

#[test]
fn both_fetches_fail() {
    let mut cache = BadgeCache::new();
    let outcome = initialize_badges(
        &mut cache,
        Err(FetchError::Parse("eof".to_string())),
        Err(FetchError::Network("down".to_string())),
    );
    assert_eq!(outcome, Err(InitError::FetchIncomplete));
    assert!(cache.get_badge_info("sub", "0").is_none());
}

#[test]
fn fetch_errors_read_as_sentences() {
    assert_eq!(FetchError::Network("timed out".to_string()).describe(), "Network error: timed out");
    assert_eq!(
        FetchError::ApiStatus("404 Not Found".to_string()).describe(),
        "API error: Status code 404 Not Found"
    );
    assert_eq!(
        FetchError::Parse("expected value".to_string()).describe(),
        "Failed to parse response: expected value"
    );
    assert_eq!(InitError::FetchIncomplete.describe(), "Failed to fetch all badges");
    assert_eq!(InitError::InvalidHeader("no header".to_string()).describe(), "no header");
    assert_eq!(InitError::LockFailed.describe(), "Failed to lock badge cache");
}

#[test]
fn status_and_body_are_judged() {
    assert!(check_status(true, "200 OK".to_string()).is_ok());
    match check_status(false, "500 Internal Server Error".to_string()) {
        Err(FetchError::ApiStatus(s)) => assert_eq!(s, "500 Internal Server Error"),
        other => panic!("unexpected {:?}", other),
    }
    assert_eq!(check_body(Ok(sub_catalog())).unwrap().len(), 1);
    match check_body(Err("bad json".to_string())) {
        Err(FetchError::Parse(s)) => assert_eq!(s, "bad json"),
        other => panic!("unexpected {:?}", other),
    }
}

#[test]
fn request_names_both_catalogs_and_headers() {
    let request = badge_request("client123", "tok", "4242").unwrap();
    assert_eq!(request.channel_url, "https://api.twitch.tv/helix/chat/badges?broadcaster_id=4242");
    assert_eq!(request.global_url, "https://api.twitch.tv/helix/chat/badges/global");
    assert_eq!(request.content_type, "application/json");
    assert_eq!(request.client_id, "client123");
    assert_eq!(request.authorization, "Bearer tok");
}

#[test]
fn control_characters_in_credentials_are_refused() {
    let refused = Some(InitError::InvalidHeader("failed to parse header value".to_string()));
    assert_eq!(badge_request("client\n", "tok", "1").err(), refused);
    assert_eq!(badge_request("client", "tok\r\n", "1").err(), refused);
    assert_eq!(badge_request("client", "to\u{7f}k", "1").err(), refused);
    assert_eq!(badge_request("\u{0}", "tok", "1").unwrap_err().describe(), "failed to parse header value");
    assert!(badge_request("cli\tent", "t\u{e9}k", "1").is_ok());
    assert!(badge_request("", "", "").is_ok());
}

#[test]
fn notice_follows_outcome() {
    assert!(matches!(initialization_notice(Ok(())), BadgeNotice::Initialized));
    match initialization_notice(Err(InitError::FetchIncomplete)) {
        BadgeNotice::Failed(reason) => assert_eq!(reason, "Failed to fetch all badges"),
        other => panic!("unexpected {:?}", other),
    }
    match initialization_notice(Err(InitError::LockFailed)) {
        BadgeNotice::Failed(reason) => assert_eq!(reason, "Failed to lock badge cache"),
        other => panic!("unexpected {:?}", other),
    }
}

#[test]
fn only_the_first_claim_is_granted() {
    let mut latch = StartLatch::new();
    let mut granted = 0;
    for _ in 0..10 {
        if latch.claim() {
            granted += 1;
        }
    }
    assert_eq!(granted, 1);
    assert!(latch.started);
}

#[test]
fn initialization_is_handed_out_once() {
    let mut latch = StartLatch::new();
    let first = ensure_badges_initialized(&mut latch, "c".to_string(), "t".to_string(), "b".to_string());
    let work = first.unwrap();
    assert_eq!(work.client_id, "c");
    assert_eq!(work.token, "t");
    assert_eq!(work.broadcaster_id, "b");
    for _ in 0..5 {
        assert!(ensure_badges_initialized(&mut latch, "c2".to_string(), "t2".to_string(), "b2".to_string())
            .is_none());
    }
}
