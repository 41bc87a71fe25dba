//! The pagination-style backend: finding the live chat session, asking
//! for pages of messages, and deciding what follows each page.

use vstd::prelude::*;
use vstd::string::*;
use crate::badge::SimpleBadge;
use crate::color::{get_random_color, is_hex_color};
use crate::events::{ChatEvent, ChatEventView};
use crate::queue::{texts, OutboundQueue};

verus! {

/// Pause where the provider suggests none, in milliseconds.
pub const DEFAULT_POLL_MILLIS: u64 = 1000;

/// Why no live chat session could be found.
#[derive(Debug, Clone, Copy, PartialEq, Eq)]
pub enum BootstrapError {
    /// The search for a live stream of the channel found nothing.
    NoLiveStream,
    /// The first search hit names no video.
    NoVideoId,
    /// The provider knows nothing of the video.
    NoVideoDetails,
    /// The video is not a live stream.
    NoStreamingDetails,
    /// The live stream has no active chat.
    NoActiveChat,
}

/// The sentence that reports a bootstrap error.
pub open spec fn bootstrap_error_text(e: BootstrapError) -> Seq<char> {
    match e {
        BootstrapError::NoLiveStream => "No live streams found for this channel"@,
        BootstrapError::NoVideoId => "Could not find video ID in the search response"@,
        BootstrapError::NoVideoDetails => "No video details found"@,
        BootstrapError::NoStreamingDetails => "No live streaming details found for this video"@,
        BootstrapError::NoActiveChat => "No active live chat found for this video"@,
    }
}

impl BootstrapError {
    /// The sentence that reports this error.
    pub fn describe(&self) -> (text: String)
        ensures
            text@ == bootstrap_error_text(*self),
    {
        match self {
            BootstrapError::NoLiveStream => String::from_str("No live streams found for this channel"),
            BootstrapError::NoVideoId => String::from_str(
                "Could not find video ID in the search response",
            ),
            BootstrapError::NoVideoDetails => String::from_str("No video details found"),
            BootstrapError::NoStreamingDetails => String::from_str(
                "No live streaming details found for this video",
            ),
            BootstrapError::NoActiveChat => String::from_str("No active live chat found for this video"),
        }
    }
}

/// Identifier part of a search hit.
#[derive(Debug, Clone)]
pub struct SearchItemId {
    pub video_id: Option<String>,
}

/// One hit of the search for live streams.
#[derive(Debug, Clone)]
pub struct SearchItem {
    pub id: SearchItemId,
}

/// Answer to the search for live streams of a channel.
#[derive(Debug, Clone)]
pub struct SearchResponse {
    pub items: Vec<SearchItem>,
}

/// Live-stream part of a video's details.
#[derive(Debug, Clone)]
pub struct LiveStreamingDetails {
    pub active_live_chat_id: Option<String>,
}

/// Details of one video.
#[derive(Debug, Clone)]
pub struct LiveVideoItem {
    pub live_streaming_details: Option<LiveStreamingDetails>,
}

/// Answer to the request for a video's details.
#[derive(Debug, Clone)]
pub struct LiveVideoResponse {
    pub items: Vec<LiveVideoItem>,
}

/// Address of the search for live streams of a channel.
pub open spec fn search_url(channel_id: Seq<char>, api_key: Seq<char>) -> Seq<char> {
    "https://www.googleapis.com/youtube/v3/search?part=id&eventType=live&type=video&channelId="@
        + channel_id + "&key="@ + api_key
}

/// Address of a video's live-stream details.
pub open spec fn video_url(video_id: Seq<char>, api_key: Seq<char>) -> Seq<char> {
    "https://www.googleapis.com/youtube/v3/videos?part=liveStreamingDetails&id="@ + video_id
        + "&key="@ + api_key
}

/// Address of a page of chat messages. Without a token the provider
/// starts at the beginning of the stream.
pub open spec fn messages_url(chat_id: Seq<char>, api_key: Seq<char>, token: Option<Seq<char>>) -> Seq<char> {
    let first = "https://www.googleapis.com/youtube/v3/liveChat/messages?liveChatId="@ + chat_id
        + "&part=snippet,authorDetails&key="@ + api_key;
    match token {
        Some(t) => first + "&pageToken="@ + t,
        None => first,
    }
}

/// Address that outbound chat messages are sent to.
pub open spec fn send_url() -> Seq<char> {
    "https://www.googleapis.com/youtube/v3/liveChat/messages?part=snippet"@
}

/// Builds the address of the search for live streams of a channel.
pub fn live_video_search_url(channel_id: &str, api_key: &str) -> (url: String)
    ensures
        url@ == search_url(channel_id@, api_key@),
{
    String::from_str(
        "https://www.googleapis.com/youtube/v3/search?part=id&eventType=live&type=video&channelId=",
    ).concat(channel_id).concat("&key=").concat(api_key)
}

/// Picks the live video out of a search answer: the first hit decides.
pub fn get_live_video_id(response: &SearchResponse) -> (r: Result<String, BootstrapError>)
    ensures
        response.items@.len() == 0 ==> r == Err::<String, BootstrapError>(BootstrapError::NoLiveStream),
        response.items@.len() > 0 ==> match response.items@[0].id.video_id {
            Some(video_id) => r.is_ok() && r.unwrap()@ == video_id@,
            None => r == Err::<String, BootstrapError>(BootstrapError::NoVideoId),
        },
{
    if response.items.len() == 0 {
        return Err(BootstrapError::NoLiveStream);
    }
    match &response.items[0].id.video_id {
        Some(video_id) => Ok(video_id.clone()),
        None => Err(BootstrapError::NoVideoId),
    }
}

/// Builds the address of a video's live-stream details.
pub fn live_video_details_url(video_id: &str, api_key: &str) -> (url: String)
    ensures
        url@ == video_url(video_id@, api_key@),
{
    String::from_str("https://www.googleapis.com/youtube/v3/videos?part=liveStreamingDetails&id=").concat(
        video_id,
    ).concat("&key=").concat(api_key)
}

/// Picks the chat session out of a video's details: the first item
/// decides, and a video without an active chat is not live.
pub fn get_live_chat_id(response: &LiveVideoResponse) -> (r: Result<String, BootstrapError>)
    ensures
        response.items@.len() == 0 ==> r == Err::<String, BootstrapError>(BootstrapError::NoVideoDetails),
        response.items@.len() > 0 ==> match response.items@[0].live_streaming_details {
            None => r == Err::<String, BootstrapError>(BootstrapError::NoStreamingDetails),
            Some(details) => match details.active_live_chat_id {
                Some(chat_id) => r.is_ok() && r.unwrap()@ == chat_id@,
                None => r == Err::<String, BootstrapError>(BootstrapError::NoActiveChat),
            },
        },
{
    if response.items.len() == 0 {
        return Err(BootstrapError::NoVideoDetails);
    }
    match &response.items[0].live_streaming_details {
        Some(details) => match &details.active_live_chat_id {
            Some(chat_id) => Ok(chat_id.clone()),
            None => Err(BootstrapError::NoActiveChat),
        },
        None => Err(BootstrapError::NoStreamingDetails),
    }
}

/// Where the next page starts and how long the provider wants the
/// client to wait for it.
#[derive(Debug, Clone)]
pub struct PollCursor {
    pub token: String,
    pub polling_interval_millis: u64,
}

/// The token of a cursor; no cursor, no token.
pub open spec fn cursor_token(cursor: Option<PollCursor>) -> Option<Seq<char>> {
    match cursor {
        Some(c) => Some(c.token@),
        None => None,
    }
}

/// Builds the address of the page that `cursor` points to.
pub fn fetch_chat_messages_url(chat_id: &str, api_key: &str, cursor: &Option<PollCursor>) -> (url: String)
    ensures
        url@ == messages_url(chat_id@, api_key@, cursor_token(*cursor)),
{
    let url = String::from_str(
        "https://www.googleapis.com/youtube/v3/liveChat/messages?liveChatId=",
    ).concat(chat_id).concat("&part=snippet,authorDetails&key=").concat(api_key);
    match cursor {
        Some(c) => url.concat("&pageToken=").concat(c.token.as_str()),
        None => url,
    }
}

/// Text part of the body of a send request.
#[derive(Debug, Clone)]
pub struct TextMessageDetails {
    pub message_text: String,
}

/// Main part of the body of a send request.
#[derive(Debug, Clone)]
pub struct Snippet {
    pub live_chat_id: String,
    pub type_field: String,
    pub text_message_details: TextMessageDetails,
}

/// Body of a send request.
#[derive(Debug, Clone)]
pub struct SendMessageRequest {
    pub snippet: Snippet,
}

/// Where a send request goes, and with what body.
#[derive(Debug, Clone)]
pub struct SendCall {
    pub url: String,
    pub request: SendMessageRequest,
}

/// Prepares the request that sends `message` into a chat session.
pub fn youtube_send_chat(chat_id: &str, message: &str) -> (call: SendCall)
    ensures
        call.url@ == send_url(),
        call.request.snippet.live_chat_id@ == chat_id@,
        call.request.snippet.type_field@ == "textMessageEvent"@,
        call.request.snippet.text_message_details.message_text@ == message@,
{
    SendCall {
        url: String::from_str("https://www.googleapis.com/youtube/v3/liveChat/messages?part=snippet"),
        request: SendMessageRequest {
            snippet: Snippet {
                live_chat_id: chat_id.to_owned(),
                type_field: String::from_str("textMessageEvent"),
                text_message_details: TextMessageDetails { message_text: message.to_owned() },
            },
        },
    }
}

/// Text and time of a chat message.
#[derive(Debug, Clone)]
pub struct MessageSnippet {
    pub display_message: String,
    pub published_at: String,
}

/// Author of a chat message.
#[derive(Debug, Clone)]
pub struct AuthorDetails {
    pub display_name: String,
    pub is_owner: Option<bool>,
    pub is_moderator: Option<bool>,
    pub is_sponsor: Option<bool>,
}

/// One chat message of a page.
#[derive(Debug, Clone)]
pub struct ChatMessage {
    pub snippet: MessageSnippet,
    pub author_details: AuthorDetails,
}

/// One page of chat messages.
#[derive(Debug, Clone)]
pub struct LiveChatResponse {
    pub items: Option<Vec<ChatMessage>>,
    pub next_page_token: Option<String>,
    pub polling_interval_millis: Option<u64>,
}

/// Standing of an author in the channel, highest first.
#[derive(Debug, Clone, Copy, PartialEq, Eq)]
pub enum AuthorRole {
    Owner,
    Moderator,
    Sponsor,
    Viewer,
}

/// A flag that the provider may leave out counts as not set.
pub open spec fn flag_set(flag: Option<bool>) -> bool {
    flag == Some(true)
}

/// The highest standing that an author's flags give.
pub open spec fn role_of(author: AuthorDetails) -> AuthorRole {
    if flag_set(author.is_owner) {
        AuthorRole::Owner
    } else if flag_set(author.is_moderator) {
        AuthorRole::Moderator
    } else if flag_set(author.is_sponsor) {
        AuthorRole::Sponsor
    } else {
        AuthorRole::Viewer
    }
}

/// The highest standing that an author's flags give.
pub fn author_role(author: &AuthorDetails) -> (role: AuthorRole)
    ensures
        role == role_of(*author),
{
    if author.is_owner.unwrap_or(false) {
        AuthorRole::Owner
    } else if author.is_moderator.unwrap_or(false) {
        AuthorRole::Moderator
    } else if author.is_sponsor.unwrap_or(false) {
        AuthorRole::Sponsor
    } else {
        AuthorRole::Viewer
    }
}

/// A decimal digit.
pub open spec fn is_digit(c: char) -> bool {
    '0' <= c && c <= '9'
}

/// A time of day in the notation `HH:MM:SS`.
pub open spec fn is_clock_time(s: Seq<char>) -> bool {
    &&& s.len() == 8
    &&& is_digit(s[0]) && is_digit(s[1]) && s[2] == ':'
    &&& is_digit(s[3]) && is_digit(s[4]) && s[5] == ':'
    &&& is_digit(s[6]) && is_digit(s[7])
}

/// Whether a text is a timestamp that `chrono::DateTime::parse_from_rfc3339`
/// takes.
pub uninterp spec fn parses_as_rfc3339(text: Seq<char>) -> bool;

/// Local time of day of an RFC 3339 timestamp, or `None` where the text
/// is no such timestamp.
///
/// Calls `chrono::DateTime::parse_from_rfc3339`, moves the value into
/// `chrono::Local` and formats it with `%H:%M:%S`. A time comes back
/// exactly when the parser takes the text, which depends on the text
/// alone. Which time comes back depends on the machine's time zone, so
/// only its notation is claimed: chrono pads each of the three numbers
/// to two digits.
#[verifier::external_body]
pub(crate) fn format_timestamp(timestamp_str: &str) -> (clock: Option<String>)
    ensures
        clock.is_some() == parses_as_rfc3339(timestamp_str@),
        clock.is_some() ==> is_clock_time(clock.unwrap()@),
{
    match chrono::DateTime::parse_from_rfc3339(timestamp_str) {
        Ok(timestamp) => Some(timestamp.with_timezone(&chrono::Local).format("%H:%M:%S").to_string()),
        Err(_) => None,
    }
}

/// The text of a string that may be missing.
pub open spec fn optional_text(s: Option<String>) -> Option<Seq<char>> {
    match s {
        Some(t) => Some(t@),
        None => None,
    }
}

/// The time shown beside a chat line: the clock time, or a row of
/// question marks where there is none.
pub open spec fn time_label(clock: Option<Seq<char>>) -> Seq<char> {
    match clock {
        Some(t) => t,
        None => "??:??:??"@,
    }
}

/// The chat line shown for a message, given the colour drawn for it and
/// the clock time read from its timestamp.
pub open spec fn page_event(message: ChatMessage, color: Seq<char>, clock: Option<Seq<char>>) -> ChatEventView {
    ChatEventView {
        user: message.author_details.display_name@,
        color,
        message: message.snippet.display_message@,
        badges: Seq::empty(),
        timestamp: Some(time_label(clock)),
    }
}

/// Builds the chat line for one message of a page.
pub fn chat_event_from(message: &ChatMessage, color: String, clock: Option<String>) -> (event: ChatEvent)
    ensures
        event@ == page_event(*message, color@, optional_text(clock)),
{
    let timestamp = match clock {
        Some(t) => t,
        None => String::from_str("??:??:??"),
    };
    let badges: Vec<SimpleBadge> = Vec::new();
    let event = ChatEvent {
        user: message.author_details.display_name.clone(),
        color,
        message: message.snippet.display_message.clone(),
        badges,
        timestamp: Some(timestamp),
    };
    assert(event@.badges =~= Seq::empty());
    event
}

/// Whether `event` is a chat line that the loop may emit for `message`:
/// author and text are the message's, there are no badges, the colour
/// is some colour in the notation `#rrggbb`, and the time is some clock
/// time where the message's timestamp parses and the row of question
/// marks where it does not.
pub open spec fn shows(message: ChatMessage, event: ChatEventView) -> bool {
    &&& event.user == message.author_details.display_name@
    &&& event.message == message.snippet.display_message@
    &&& event.badges.len() == 0
    &&& is_hex_color(event.color)
    &&& event.timestamp.is_some()
    &&& parses_as_rfc3339(message.snippet.published_at@) ==> is_clock_time(event.timestamp.unwrap())
    &&& !parses_as_rfc3339(message.snippet.published_at@) ==> event.timestamp.unwrap() == time_label(None)
}

/// Turns the messages of one page into chat lines, one per message and
/// in the page's order.
pub fn page_events(items: &Vec<ChatMessage>) -> (events: Vec<ChatEvent>)
    ensures
        events@.len() == items@.len(),
        forall|i: int| 0 <= i < items@.len() ==> shows(items@[i], (#[trigger] events@[i])@),
{
    let mut events: Vec<ChatEvent> = Vec::new();
    let mut i: usize = 0;
    while i < items.len()
        invariant
            i <= items@.len(),
            events@.len() == i,
            forall|j: int| 0 <= j < i ==> shows(items@[j], (#[trigger] events@[j])@),
        decreases items@.len() - i,
    {
        let clock = format_timestamp(items[i].snippet.published_at.as_str());
        let color = get_random_color();
        let event = chat_event_from(&items[i], color, clock);
        events.push(event);
        i += 1;
    }
    events
}

/// Mathematical value of a [`PollCursor`].
pub struct PollCursorView {
    pub token: Seq<char>,
    pub polling_interval_millis: u64,
}

/// The value of a stored cursor.
pub open spec fn cursor_view(cursor: Option<PollCursor>) -> Option<PollCursorView> {
    match cursor {
        Some(c) => Some(PollCursorView { token: c.token@, polling_interval_millis: c.polling_interval_millis }),
        None => None,
    }
}

/// The cursor that a page leaves behind. The provider expects a further
/// page where it suggests an interval; only then is its token kept, and
/// without one the next request starts from the beginning.
pub open spec fn next_cursor(next_page_token: Option<String>, polling_interval_millis: Option<u64>) -> Option<
    PollCursorView,
> {
    match (polling_interval_millis, next_page_token) {
        (Some(millis), Some(token)) => Some(
            PollCursorView { token: token@, polling_interval_millis: millis },
        ),
        _ => None,
    }
}

/// The pause after a page: what the provider suggests, or the default.
pub open spec fn pause_after(polling_interval_millis: Option<u64>) -> u64 {
    match polling_interval_millis {
        Some(millis) => millis,
        None => DEFAULT_POLL_MILLIS,
    }
}

/// A page that names a next page and suggests an interval decides the
/// next request: it is made with that page's token, and not before the
/// interval has passed.
pub proof fn lemma_next_poll_follows_page(
    chat_id: Seq<char>,
    api_key: Seq<char>,
    token: String,
    millis: u64,
)
    ensures
        next_cursor(Some(token), Some(millis)) == Some(
            PollCursorView { token: token@, polling_interval_millis: millis },
        ),
        pause_after(Some(millis)) == millis,
        messages_url(chat_id, api_key, Some(token@)) == messages_url(chat_id, api_key, None)
            + "&pageToken="@ + token@,
{
}

/// What one iteration of the pagination loop leads to.
#[derive(Debug)]
pub struct PageStep {
    /// For the presentation layer, in this order.
    pub events: Vec<ChatEvent>,
    /// The cursor to ask the next page with.
    pub cursor: Option<PollCursor>,
    /// For the backend, in this order; each is sent once, whether or not
    /// the one before it got through.
    pub outgoing: Vec<String>,
    /// Pause before the next request.
    pub sleep_millis: u64,
}

/// An iteration in which nothing arrived: nothing is emitted, the cursor
/// stays, and the loop asks again after the default pause. What waits in
/// the outbound queue is handed over for sending all the same, oldest
/// first, so that a silent chat holds no message back.
pub fn idle_step(cursor: Option<PollCursor>, queue: &mut OutboundQueue) -> (step: PageStep)
    ensures
        is_idle(step, cursor, old(queue)@, final(queue)@),
{
    let outgoing = queue.drain();
    PageStep { events: Vec::new(), cursor, outgoing, sleep_millis: DEFAULT_POLL_MILLIS }
}

/// Whether a page brought any message. A page without a message list and
/// a page with an empty one are the same to the loop.
pub open spec fn has_messages(response: LiveChatResponse) -> bool {
    response.items.is_some() && response.items.unwrap()@.len() > 0
}

/// Whether `step` is an idle iteration: nothing is emitted, the cursor
/// stays, the pause is the default one, and the whole outbound queue is
/// handed over for sending, oldest first.
pub open spec fn is_idle(
    step: PageStep,
    cursor: Option<PollCursor>,
    queue_before: Seq<Seq<char>>,
    queue_after: Seq<Seq<char>>,
) -> bool {
    &&& step.events@.len() == 0
    &&& step.cursor == cursor
    &&& step.sleep_millis == DEFAULT_POLL_MILLIS
    &&& texts(step.outgoing@) == queue_before
    &&& queue_after.len() == 0
}

/// Whether `step` is what follows a page. The whole outbound queue is
/// handed over for sending either way. A page that brought no message
/// makes an idle iteration; any other gives one chat line per message
/// and decides the cursor and the pause.
pub open spec fn follows_page(
    step: PageStep,
    cursor: Option<PollCursor>,
    response: LiveChatResponse,
    queue_before: Seq<Seq<char>>,
    queue_after: Seq<Seq<char>>,
) -> bool {
    if has_messages(response) {
        let items = response.items.unwrap();
        &&& step.events@.len() == items@.len()
        &&& forall|i: int| 0 <= i < items@.len() ==> shows(items@[i], (#[trigger] step.events@[i])@)
        &&& cursor_view(step.cursor) == next_cursor(response.next_page_token, response.polling_interval_millis)
        &&& step.sleep_millis == pause_after(response.polling_interval_millis)
        &&& texts(step.outgoing@) == queue_before
        &&& queue_after.len() == 0
    } else {
        is_idle(step, cursor, queue_before, queue_after)
    }
}

/// One iteration of the pagination loop, after the page has arrived.
///
/// A page that brings no message is no error: the iteration is idle,
/// which keeps the cursor and waits the default pause. Otherwise every
/// message becomes a chat line and the page decides the next cursor and
/// the pause. Either way the outbound queue is emptied into the list of
/// messages to send, oldest first.
pub fn youtube_step(cursor: Option<PollCursor>, response: &LiveChatResponse, queue: &mut OutboundQueue) -> (step:
    PageStep)
    ensures
        follows_page(step, cursor, *response, old(queue)@, final(queue)@),
{
    match &response.items {
        None => idle_step(cursor, queue),
        Some(items) => {
            if items.len() == 0 {
                return idle_step(cursor, queue);
            }
            let events = page_events(items);
            let next = match (response.polling_interval_millis, &response.next_page_token) {
                (Some(millis), Some(token)) => Some(
                    PollCursor { token: token.clone(), polling_interval_millis: millis },
                ),
                _ => None,
            };
            let sleep_millis = match response.polling_interval_millis {
                Some(millis) => millis,
                None => DEFAULT_POLL_MILLIS,
            };
            let outgoing = queue.drain();
            PageStep { events, cursor: next, outgoing, sleep_millis }
        },
    }
}

/// One iteration of the pagination loop, whatever became of the poll.
///
/// A poll that failed does not end the loop: the iteration is idle, so
/// the same page is asked for again after the default pause, and what
/// waits in the queue is sent meanwhile. A poll that brought a page is
/// followed as `youtube_step` says.
pub fn youtube_poll_step(
    cursor: Option<PollCursor>,
    outcome: &Result<LiveChatResponse, String>,
    queue: &mut OutboundQueue,
) -> (step: PageStep)
    ensures
        match *outcome {
            Ok(response) => follows_page(step, cursor, response, old(queue)@, final(queue)@),
            Err(_) => is_idle(step, cursor, old(queue)@, final(queue)@),
        },
{
    match outcome {
        Ok(response) => youtube_step(cursor, response, queue),
        Err(_) => idle_step(cursor, queue),
    }
}

/// Where the pagination loop stands.
#[derive(Debug, Clone)]
pub enum LoopState {
    /// The chat session has not been looked for yet.
    Bootstrapping,
    /// Pages are being asked for.
    Running { chat_id: String, cursor: Option<PollCursor> },
    /// No chat session was found; the loop has ended and said why.
    Aborted(BootstrapError),
}

/// Leaves `Bootstrapping`: with a chat session the loop runs, starting
/// at the beginning of the stream; without one it ends for good. Any
/// other state stays as it is.
pub fn finish_bootstrap(state: LoopState, session: Result<String, BootstrapError>) -> (next: LoopState)
    ensures
        !(state is Bootstrapping) ==> next == state,
        state is Bootstrapping ==> match session {
            Ok(chat_id) => next == (LoopState::Running { chat_id, cursor: None }),
            Err(e) => next == LoopState::Aborted(e),
        },
{
    match state {
        LoopState::Bootstrapping => match session {
            Ok(chat_id) => LoopState::Running { chat_id, cursor: None },
            Err(e) => LoopState::Aborted(e),
        },
        other => other,
    }
}

} // verus!
