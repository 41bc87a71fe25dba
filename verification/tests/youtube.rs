use chat_hub::queue::OutboundQueue;
use chat_hub::youtube::{
    author_role, chat_event_from, fetch_chat_messages_url, finish_bootstrap, get_live_chat_id,
    get_live_video_id, idle_step, live_video_details_url, live_video_search_url, page_events,
    youtube_poll_step, youtube_send_chat, youtube_step, AuthorDetails, AuthorRole, BootstrapError, ChatMessage,
    LiveChatResponse, LiveStreamingDetails, LiveVideoItem, LiveVideoResponse, LoopState,
    MessageSnippet, PollCursor, SearchItem, SearchItemId, SearchResponse, DEFAULT_POLL_MILLIS,
};

fn message(name: &str, text: &str, published_at: &str) -> ChatMessage {
    ChatMessage {
        snippet: MessageSnippet { display_message: text.to_string(), published_at: published_at.to_string() },
        author_details: AuthorDetails {
            display_name: name.to_string(),
            is_owner: None,
            is_moderator: None,
            is_sponsor: None,
        },
    }
}

fn is_clock_time(s: &str) -> bool {
    let c: Vec<char> = s.chars().collect();
    c.len() == 8
        && c[2] == ':'
        && c[5] == ':'
        && [0, 1, 3, 4, 6, 7].iter().all(|&i| c[i].is_ascii_digit())
}

fn hit(video_id: Option<&str>) -> SearchItem {
    SearchItem { id: SearchItemId { video_id: video_id.map(|s| s.to_string()) } }
}

#[test]
fn next_poll_uses_the_token_and_waits_the_interval() {
    let mut queue = OutboundQueue::new();
    let response = LiveChatResponse {
        items: Some(vec![message("alice", "hello", "2024-05-01T10:20:30Z")]),
        next_page_token: Some("T2".to_string()),
        polling_interval_millis: Some(5000),
    };
    let step = youtube_step(None, &response, &mut queue);
    assert!(step.sleep_millis >= 5000);
    assert_eq!(step.sleep_millis, 5000);
    let cursor = step.cursor;
    assert_eq!(cursor.as_ref().unwrap().token, "T2");
    assert_eq!(cursor.as_ref().unwrap().polling_interval_millis, 5000);
    assert_eq!(
        fetch_chat_messages_url("CHAT", "KEY", &cursor),
        "https://www.googleapis.com/youtube/v3/liveChat/messages?liveChatId=CHAT&part=snippet,authorDetails&key=KEY&pageToken=T2"
    );
}

#[test]
fn first_poll_has_no_page_token() {
    assert_eq!(
        fetch_chat_messages_url("CHAT", "KEY", &None),
        "https://www.googleapis.com/youtube/v3/liveChat/messages?liveChatId=CHAT&part=snippet,authorDetails&key=KEY"
    );
}

#[test]
fn page_without_interval_keeps_no_cursor_and_waits_the_default() {
    let mut queue = OutboundQueue::new();
    queue.enqueue("out".to_string());
    let response = LiveChatResponse {
        items: Some(vec![message("alice", "hello", "2024-05-01T10:20:30Z")]),
        next_page_token: Some("T9".to_string()),
        polling_interval_millis: None,
    };
    let old = Some(PollCursor { token: "T1".to_string(), polling_interval_millis: 2000 });
    let step = youtube_step(old, &response, &mut queue);
    assert!(step.cursor.is_none());
    assert_eq!(step.sleep_millis, 1000);
    assert_eq!(step.outgoing, vec!["out".to_string()]);
    assert_eq!(step.events.len(), 1);
    assert_eq!(queue.len(), 0);
}

#[test]
fn page_with_interval_but_no_token_restarts() {
    let mut queue = OutboundQueue::new();
    let response = LiveChatResponse {
        items: Some(vec![message("alice", "hello", "2024-05-01T10:20:30Z")]),
        next_page_token: None,
        polling_interval_millis: Some(750),
    };
    let old = Some(PollCursor { token: "T1".to_string(), polling_interval_millis: 2000 });
    let step = youtube_step(old, &response, &mut queue);
    assert!(step.cursor.is_none());
    assert_eq!(step.sleep_millis, 750);
}

#[test]
fn page_without_items_is_idle() {
    let mut queue = OutboundQueue::new();
    queue.enqueue("waiting".to_string());
    let response = LiveChatResponse {
        items: None,
        next_page_token: Some("T5".to_string()),
        polling_interval_millis: Some(9000),
    };
    let old = Some(PollCursor { token: "T1".to_string(), polling_interval_millis: 2000 });
    let step = youtube_step(old, &response, &mut queue);
    assert!(step.events.is_empty());
    assert_eq!(step.cursor.as_ref().unwrap().token, "T1");
    assert_eq!(step.cursor.as_ref().unwrap().polling_interval_millis, 2000);
    assert_eq!(step.sleep_millis, DEFAULT_POLL_MILLIS);
    assert_eq!(step.outgoing, vec!["waiting".to_string()]);
    assert_eq!(queue.len(), 0);
}

#[test]
fn page_with_zero_events_is_idle() {
    let mut queue = OutboundQueue::new();
    let response = LiveChatResponse {
        items: Some(Vec::new()),
        next_page_token: Some("T5".to_string()),
        polling_interval_millis: Some(5000),
    };
    let old = Some(PollCursor { token: "T1".to_string(), polling_interval_millis: 2000 });
    let step = youtube_step(old, &response, &mut queue);
    assert!(step.events.is_empty());
    assert!(step.outgoing.is_empty());
    assert_eq!(step.cursor.as_ref().unwrap().token, "T1");
    assert_eq!(step.cursor.as_ref().unwrap().polling_interval_millis, 2000);
    assert_eq!(step.sleep_millis, 1000);

    let from_start = youtube_step(None, &response, &mut queue);
    assert!(from_start.cursor.is_none());
    assert_eq!(from_start.sleep_millis, 1000);
}

#[test]
fn silent_chat_holds_no_message_back() {
    let mut queue = OutboundQueue::new();
    for m in ["A", "B", "C"] {
        queue.enqueue(m.to_string());
    }
    let response =
        LiveChatResponse { items: Some(Vec::new()), next_page_token: None, polling_interval_millis: None };
    let step = youtube_step(None, &response, &mut queue);
    assert_eq!(step.outgoing, vec!["A".to_string(), "B".to_string(), "C".to_string()]);
    assert_eq!(queue.len(), 0);
}

#[test]
fn failed_poll_is_idle_and_the_loop_goes_on() {
    let mut queue = OutboundQueue::new();
    queue.enqueue("waiting".to_string());
    let old = Some(PollCursor { token: "T1".to_string(), polling_interval_millis: 2000 });
    let failed = youtube_poll_step(old, &Err("connection reset".to_string()), &mut queue);
    assert!(failed.events.is_empty());
    assert_eq!(failed.outgoing, vec!["waiting".to_string()]);
    assert_eq!(failed.cursor.as_ref().unwrap().token, "T1");
    assert_eq!(failed.cursor.as_ref().unwrap().polling_interval_millis, 2000);
    assert_eq!(failed.sleep_millis, DEFAULT_POLL_MILLIS);
    assert_eq!(queue.len(), 0);

    queue.enqueue("later".to_string());
    let page = LiveChatResponse {
        items: Some(vec![message("alice", "hello", "2024-05-01T10:20:30Z")]),
        next_page_token: Some("T2".to_string()),
        polling_interval_millis: Some(5000),
    };
    let next = youtube_poll_step(failed.cursor, &Ok(page), &mut queue);
    assert_eq!(next.events.len(), 1);
    assert_eq!(next.outgoing, vec!["later".to_string()]);
    assert_eq!(next.cursor.as_ref().unwrap().token, "T2");
    assert_eq!(next.sleep_millis, 5000);
    assert_eq!(queue.len(), 0);
}

#[test]
fn idle_iteration_keeps_the_cursor_and_empties_the_queue() {
    let mut queue = OutboundQueue::new();
    let step = idle_step(None, &mut queue);
    assert!(step.events.is_empty() && step.outgoing.is_empty() && step.cursor.is_none());
    assert_eq!(step.sleep_millis, 1000);
    queue.enqueue("A".to_string());
    queue.enqueue("B".to_string());
    let kept = Some(PollCursor { token: "T7".to_string(), polling_interval_millis: 10 });
    let step = idle_step(kept, &mut queue);
    assert_eq!(step.cursor.unwrap().token, "T7");
    assert_eq!(step.outgoing, vec!["A".to_string(), "B".to_string()]);
    assert_eq!(step.sleep_millis, 1000);
    assert_eq!(queue.len(), 0);
}

#[test]
fn outbound_messages_leave_in_order() {
    let mut queue = OutboundQueue::new();
    for m in ["A", "B", "C"] {
        queue.enqueue(m.to_string());
    }
    let response = LiveChatResponse {
        items: Some(vec![message("alice", "hello", "2024-05-01T10:20:30Z")]),
        next_page_token: None,
        polling_interval_millis: None,
    };
    let step = youtube_step(None, &response, &mut queue);
    assert_eq!(step.outgoing, vec!["A".to_string(), "B".to_string(), "C".to_string()]);
}

#[test]
fn page_messages_become_chat_lines() {
    let items = vec![
        message("alice", "hello", "2024-05-01T10:20:30Z"),
        message("bob", "again", "not a timestamp"),
        message("carol", "offset", "2024-05-01T23:59:59.250+05:30"),
    ];
    let events = page_events(&items);
    assert_eq!(events.len(), 3);
    assert_eq!(events[0].user, "alice");
    assert_eq!(events[0].message, "hello");
    assert!(events[0].badges.is_empty());
    let shown = events[0].timestamp.clone().unwrap();
    assert!(is_clock_time(&shown), "not a time: {}", shown);
    assert!(shown.ends_with(":30"));
    assert_eq!(events[1].user, "bob");
    assert_eq!(events[1].timestamp, Some("??:??:??".to_string()));
    assert!(is_clock_time(&events[2].timestamp.clone().unwrap()));
    for e in &events {
        let c: Vec<char> = e.color.chars().collect();
        assert_eq!(c.len(), 7);
        assert_eq!(c[0], '#');
        assert!(c[1..].iter().all(|d| matches!(d, '0'..='9' | 'a'..='f')));
    }
}

#[test]
fn chat_line_from_given_color_and_time() {
    let m = message("dave", "text", "whatever");
    let with_time = chat_event_from(&m, "#112233".to_string(), Some("12:34:56".to_string()));
    assert_eq!(with_time.user, "dave");
    assert_eq!(with_time.color, "#112233");
    assert_eq!(with_time.message, "text");
    assert_eq!(with_time.timestamp, Some("12:34:56".to_string()));
    assert!(with_time.badges.is_empty());
    let without = chat_event_from(&m, "#112233".to_string(), None);
    assert_eq!(without.timestamp, Some("??:??:??".to_string()));
}

#[test]
fn search_answer_yields_video_id() {
    assert_eq!(
        get_live_video_id(&SearchResponse { items: vec![hit(Some("vid1")), hit(Some("vid2"))] }),
        Ok("vid1".to_string())
    );
    assert_eq!(get_live_video_id(&SearchResponse { items: Vec::new() }), Err(BootstrapError::NoLiveStream));
    assert_eq!(
        get_live_video_id(&SearchResponse { items: vec![hit(None), hit(Some("vid2"))] }),
        Err(BootstrapError::NoVideoId)
    );
}

#[test]
fn video_details_yield_chat_id() {
    let live = |chat: Option<&str>| LiveVideoItem {
        live_streaming_details: Some(LiveStreamingDetails { active_live_chat_id: chat.map(|s| s.to_string()) }),
    };
    assert_eq!(
        get_live_chat_id(&LiveVideoResponse { items: vec![live(Some("chat1"))] }),
        Ok("chat1".to_string())
    );
    assert_eq!(get_live_chat_id(&LiveVideoResponse { items: Vec::new() }), Err(BootstrapError::NoVideoDetails));
    assert_eq!(
        get_live_chat_id(&LiveVideoResponse { items: vec![LiveVideoItem { live_streaming_details: None }] }),
        Err(BootstrapError::NoStreamingDetails)
    );
    assert_eq!(
        get_live_chat_id(&LiveVideoResponse { items: vec![live(None), live(Some("chat2"))] }),
        Err(BootstrapError::NoActiveChat)
    );
}

#[test]
fn bootstrap_errors_read_as_sentences() {
    assert_eq!(BootstrapError::NoLiveStream.describe(), "No live streams found for this channel");
    assert_eq!(BootstrapError::NoVideoId.describe(), "Could not find video ID in the search response");
    assert_eq!(BootstrapError::NoVideoDetails.describe(), "No video details found");
    assert_eq!(
        BootstrapError::NoStreamingDetails.describe(),
        "No live streaming details found for this video"
    );
    assert_eq!(BootstrapError::NoActiveChat.describe(), "No active live chat found for this video");
}

#[test]
fn bootstrap_addresses() {
    assert_eq!(
        live_video_search_url("UC123", "KEY"),
        "https://www.googleapis.com/youtube/v3/search?part=id&eventType=live&type=video&channelId=UC123&key=KEY"
    );
    assert_eq!(
        live_video_details_url("vid1", "KEY"),
        "https://www.googleapis.com/youtube/v3/videos?part=liveStreamingDetails&id=vid1&key=KEY"
    );
}

#[test]
fn send_request_targets_the_session() {
    let call = youtube_send_chat("chat1", "hello there");
    assert_eq!(call.url, "https://www.googleapis.com/youtube/v3/liveChat/messages?part=snippet");
    assert_eq!(call.request.snippet.live_chat_id, "chat1");
    assert_eq!(call.request.snippet.type_field, "textMessageEvent");
    assert_eq!(call.request.snippet.text_message_details.message_text, "hello there");
}

#[test]
fn bootstrap_leads_to_running_or_ends_the_loop() {
    match finish_bootstrap(LoopState::Bootstrapping, Ok("chat1".to_string())) {
        LoopState::Running { chat_id, cursor } => {
            assert_eq!(chat_id, "chat1");
            assert!(cursor.is_none());
        }
        other => panic!("unexpected {:?}", other),
    }
    match finish_bootstrap(LoopState::Bootstrapping, Err(BootstrapError::NoActiveChat)) {
        LoopState::Aborted(e) => assert_eq!(e, BootstrapError::NoActiveChat),
        other => panic!("unexpected {:?}", other),
    }
    match finish_bootstrap(LoopState::Aborted(BootstrapError::NoLiveStream), Ok("chat1".to_string())) {
        LoopState::Aborted(e) => assert_eq!(e, BootstrapError::NoLiveStream),
        other => panic!("unexpected {:?}", other),
    }
}

#[test]
fn highest_role_wins() {
    let author = |o: Option<bool>, m: Option<bool>, s: Option<bool>| AuthorDetails {
        display_name: "x".to_string(),
        is_owner: o,
        is_moderator: m,
        is_sponsor: s,
    };
    assert_eq!(author_role(&author(Some(true), Some(true), Some(true))), AuthorRole::Owner);
    assert_eq!(author_role(&author(Some(false), Some(true), Some(true))), AuthorRole::Moderator);
    assert_eq!(author_role(&author(None, None, Some(true))), AuthorRole::Sponsor);
    assert_eq!(author_role(&author(None, Some(false), None)), AuthorRole::Viewer);
}
