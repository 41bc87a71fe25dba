//! The fetch cycle that fills the badge cache: what is asked of the badge
//! provider, how each answer is judged, and what the cycle reports.

use vstd::prelude::*;
use vstd::string::*;
use vstd::utf8::encode_utf8;
use crate::badge::{populate, sets_view, BadgeCache, BadgeSet, BadgeSetView};

verus! {

/// Why one catalog could not be fetched.
#[derive(Debug, Clone)]
pub enum FetchError {
    /// The request did not get through.
    Network(String),
    /// The provider answered with a status other than success.
    ApiStatus(String),
    /// The answer's body was not a catalog.
    Parse(String),
}

/// Mathematical value of a [`FetchError`].
pub enum FetchErrorView {
    Network(Seq<char>),
    ApiStatus(Seq<char>),
    Parse(Seq<char>),
}

impl View for FetchError {
    type V = FetchErrorView;

    open spec fn view(&self) -> FetchErrorView {
        match self {
            FetchError::Network(cause) => FetchErrorView::Network(cause@),
            FetchError::ApiStatus(status) => FetchErrorView::ApiStatus(status@),
            FetchError::Parse(cause) => FetchErrorView::Parse(cause@),
        }
    }
}

/// The sentence that reports a fetch error.
pub open spec fn fetch_error_text(e: FetchErrorView) -> Seq<char> {
    match e {
        FetchErrorView::Network(cause) => "Network error: "@ + cause,
        FetchErrorView::ApiStatus(status) => "API error: Status code "@ + status,
        FetchErrorView::Parse(cause) => "Failed to parse response: "@ + cause,
    }
}

impl FetchError {
    /// The sentence that reports this error.
    pub fn describe(&self) -> (text: String)
        ensures
            text@ == fetch_error_text(self@),
    {
        match self {
            FetchError::Network(cause) => String::from_str("Network error: ").concat(cause.as_str()),
            FetchError::ApiStatus(status) => String::from_str("API error: Status code ").concat(
                status.as_str(),
            ),
            FetchError::Parse(cause) => String::from_str("Failed to parse response: ").concat(
                cause.as_str(),
            ),
        }
    }
}

/// Why initialization did not complete.
#[derive(Debug, Clone, PartialEq, Eq)]
pub enum InitError {
    /// A credential cannot be sent as a request header; the HTTP
    /// client's own words say why.
    InvalidHeader(String),
    /// At least one of the two catalogs could not be fetched.
    FetchIncomplete,
    /// The cache could not be had for writing.
    LockFailed,
}

/// Mathematical value of an [`InitError`].
pub enum InitErrorView {
    InvalidHeader(Seq<char>),
    FetchIncomplete,
    LockFailed,
}

impl View for InitError {
    type V = InitErrorView;

    open spec fn view(&self) -> InitErrorView {
        match self {
            InitError::InvalidHeader(cause) => InitErrorView::InvalidHeader(cause@),
            InitError::FetchIncomplete => InitErrorView::FetchIncomplete,
            InitError::LockFailed => InitErrorView::LockFailed,
        }
    }
}

/// The sentence that reports an initialization error.
pub open spec fn init_error_text(e: InitErrorView) -> Seq<char> {
    match e {
        InitErrorView::InvalidHeader(cause) => cause,
        InitErrorView::FetchIncomplete => "Failed to fetch all badges"@,
        InitErrorView::LockFailed => "Failed to lock badge cache"@,
    }
}

impl InitError {
    /// The sentence that reports this error.
    pub fn describe(&self) -> (text: String)
        ensures
            text@ == init_error_text(self@),
    {
        match self {
            InitError::InvalidHeader(cause) => cause.clone(),
            InitError::FetchIncomplete => String::from_str("Failed to fetch all badges"),
            InitError::LockFailed => String::from_str("Failed to lock badge cache"),
        }
    }
}

/// A byte that may stand in the value of a request header: a tab, or
/// anything from the space upward but the delete character.
pub open spec fn header_byte_ok(b: u8) -> bool {
    (b >= 32 && b != 127) || b == 9
}

/// A text that may be sent as the value of a request header: each byte
/// of its UTF-8 form may stand there.
pub open spec fn header_value_ok(text: Seq<char>) -> bool {
    forall|i: int| 0 <= i < encode_utf8(text).len() ==> header_byte_ok(#[trigger] encode_utf8(text)[i])
}

/// What the HTTP client says of a text that it refuses as a header value.
pub open spec fn header_refusal() -> Seq<char> {
    "failed to parse header value"@
}

/// Asks the HTTP client whether it takes `value` as a header value:
/// `None` if it does, its error's words if it does not.
///
/// Calls `reqwest::header::HeaderValue::from_str`, which walks the bytes
/// of the text and refuses it when one of them is a control character
/// other than the tab. Its error prints one fixed sentence. The contract
/// says both.
#[verifier::external_body]
pub(crate) fn header_value_refused(value: &str) -> (refusal: Option<String>)
    ensures
        refusal.is_none() == header_value_ok(value@),
        refusal.is_some() ==> refusal.unwrap()@ == header_refusal(),
{
    match reqwest::header::HeaderValue::from_str(value) {
        Ok(_) => None,
        Err(e) => Some(e.to_string()),
    }
}

/// Address of the broadcaster's badge catalog.
pub open spec fn channel_badges_url(broadcaster_id: Seq<char>) -> Seq<char> {
    "https://api.twitch.tv/helix/chat/badges?broadcaster_id="@ + broadcaster_id
}

/// Address of the platform-wide badge catalog.
pub open spec fn global_badges_url() -> Seq<char> {
    "https://api.twitch.tv/helix/chat/badges/global"@
}

/// Value of the authorization header for an access token.
pub open spec fn bearer(token: Seq<char>) -> Seq<char> {
    "Bearer "@ + token
}

/// The two requests of one fetch cycle: their addresses and the headers
/// that both carry.
#[derive(Debug, Clone)]
pub struct BadgeRequest {
    pub channel_url: String,
    pub global_url: String,
    pub content_type: String,
    pub client_id: String,
    pub authorization: String,
}

/// What the requests for `(client_id, token, broadcaster_id)` hold.
pub open spec fn is_request_for(
    request: BadgeRequest,
    client_id: Seq<char>,
    token: Seq<char>,
    broadcaster_id: Seq<char>,
) -> bool {
    &&& request.channel_url@ == channel_badges_url(broadcaster_id)
    &&& request.global_url@ == global_badges_url()
    &&& request.content_type@ == "application/json"@
    &&& request.client_id@ == client_id
    &&& request.authorization@ == bearer(token)
}

/// Prepares the two catalog requests. Fails, before anything is sent,
/// exactly when the client id or the authorization value cannot be a
/// header value.
pub fn badge_request(client_id: &str, token: &str, broadcaster_id: &str) -> (r: Result<
    BadgeRequest,
    InitError,
>)
    ensures
        match r {
            Ok(request) => is_request_for(request, client_id@, token@, broadcaster_id@),
            Err(e) => e@ == InitErrorView::InvalidHeader(header_refusal()),
        },
        r.is_ok() <==> header_value_ok(client_id@) && header_value_ok(bearer(token@)),
{
    if let Some(refusal) = header_value_refused(client_id) {
        return Err(InitError::InvalidHeader(refusal));
    }
    let authorization = String::from_str("Bearer ").concat(token);
    if let Some(refusal) = header_value_refused(authorization.as_str()) {
        return Err(InitError::InvalidHeader(refusal));
    }
    let request = BadgeRequest {
        channel_url: String::from_str("https://api.twitch.tv/helix/chat/badges?broadcaster_id=").concat(
            broadcaster_id,
        ),
        global_url: String::from_str("https://api.twitch.tv/helix/chat/badges/global"),
        content_type: String::from_str("application/json"),
        client_id: client_id.to_owned(),
        authorization,
    };
    Ok(request)
}

/// Judges the status line of a catalog answer: anything but success
/// ends the fetch with the status as its reason.
pub fn check_status(success: bool, status: String) -> (r: Result<(), FetchError>)
    ensures
        success ==> r.is_ok(),
        !success ==> r.is_err() && r.unwrap_err()@ == FetchErrorView::ApiStatus(status@),
{
    if success {
        Ok(())
    } else {
        Err(FetchError::ApiStatus(status))
    }
}

/// Judges the decoded body of a catalog answer: a body that did not
/// decode ends the fetch with the decoder's words as its reason.
pub fn check_body(body: Result<Vec<BadgeSet>, String>) -> (r: Result<Vec<BadgeSet>, FetchError>)
    ensures
        match body {
            Ok(sets) => r == Ok::<Vec<BadgeSet>, FetchError>(sets),
            Err(cause) => r.is_err() && r.unwrap_err()@ == FetchErrorView::Parse(cause@),
        },
{
    match body {
        Ok(sets) => Ok(sets),
        Err(cause) => Err(FetchError::Parse(cause)),
    }
}

/// The catalog that a fetch contributes to the cache: what it brought,
/// or nothing where it failed.
pub open spec fn fetched_sets(outcome: Result<Vec<BadgeSet>, FetchError>) -> Seq<BadgeSetView> {
    match outcome {
        Ok(sets) => sets_view(sets@),
        Err(_) => Seq::empty(),
    }
}

/// Ends a fetch cycle. Whatever was fetched is stored, so that a failed
/// half never costs the cache the other half; the cycle succeeds only
/// when both halves did.
pub fn initialize_badges(
    cache: &mut BadgeCache,
    channel: Result<Vec<BadgeSet>, FetchError>,
    global: Result<Vec<BadgeSet>, FetchError>,
) -> (r: Result<(), InitError>)
    ensures
        final(cache)@ == populate(old(cache)@, fetched_sets(channel), fetched_sets(global)),
        r.is_ok() <==> channel.is_ok() && global.is_ok(),
        r.is_err() ==> r == Err::<(), InitError>(InitError::FetchIncomplete),
{
    let mut success = true;
    let channel_badges = match channel {
        Ok(badges) => badges,
        Err(_) => {
            success = false;
            let none: Vec<BadgeSet> = Vec::new();
            assert(sets_view(none@) =~= Seq::<BadgeSetView>::empty());
            none
        },
    };
    let global_badges = match global {
        Ok(badges) => badges,
        Err(_) => {
            success = false;
            let none: Vec<BadgeSet> = Vec::new();
            assert(sets_view(none@) =~= Seq::<BadgeSetView>::empty());
            none
        },
    };
    cache.populate(channel_badges, global_badges);
    if success {
        Ok(())
    } else {
        Err(InitError::FetchIncomplete)
    }
}

/// What the presentation layer is told when initialization has ended.
#[derive(Debug, Clone)]
pub enum BadgeNotice {
    /// Event `badges-initialized`, with `true`.
    Initialized,
    /// Event `badges-initialization-failed`, with the reason.
    Failed(String),
}

/// The notice that an outcome of initialization calls for.
pub fn initialization_notice(outcome: Result<(), InitError>) -> (notice: BadgeNotice)
    ensures
        match outcome {
            Ok(_) => notice is Initialized,
            Err(e) => notice is Failed && notice->Failed_0@ == init_error_text(e@),
        },
{
    match outcome {
        Ok(_) => BadgeNotice::Initialized,
        Err(e) => BadgeNotice::Failed(e.describe()),
    }
}

/// A one-shot latch: the first caller to claim it wins, every later
/// claim is turned away.
#[derive(Debug)]
pub struct StartLatch {
    pub started: bool,
}

impl StartLatch {
    /// A latch that nobody has claimed.
    pub fn new() -> (latch: Self)
        ensures
            !latch.started,
    {
        StartLatch { started: false }
    }

    /// Claims the latch. `true` tells the caller that it is the first and
    /// has to do the work that the latch guards.
    pub fn claim(&mut self) -> (first: bool)
        ensures
            first == !old(self).started,
            final(self).started,
    {
        let first = !self.started;
        self.started = true;
        first
    }
}

/// What a fetch cycle needs to know of the broadcaster.
#[derive(Debug, Clone)]
pub struct Credentials {
    pub client_id: String,
    pub token: String,
    pub broadcaster_id: String,
}

/// Asks for badge initialization. The first request hands the
/// credentials back for the fetch cycle to run with; every later one is
/// a no-op.
pub fn ensure_badges_initialized(
    latch: &mut StartLatch,
    client_id: String,
    token: String,
    broadcaster_id: String,
) -> (work: Option<Credentials>)
    ensures
        final(latch).started,
        work.is_some() <==> !old(latch).started,
        work.is_some() ==> work.unwrap().client_id == client_id && work.unwrap().token == token
            && work.unwrap().broadcaster_id == broadcaster_id,
{
    if latch.claim() {
        Some(Credentials { client_id, token, broadcaster_id })
    } else {
        None
    }
}

/// How many of `claims` successive claims of a latch are granted.
pub open spec fn granted(started: bool, claims: nat) -> nat
    decreases claims,
{
    if claims == 0 {
        0
    } else {
        (if started { 0nat } else { 1nat }) + granted(true, (claims - 1) as nat)
    }
}

/// However often a latch is claimed, the guarded work is handed out at
/// most once, and exactly once if the latch was free and anyone claimed.
pub proof fn lemma_latch_grants_once(started: bool, claims: nat)
    ensures
        granted(started, claims) <= 1,
        granted(true, claims) == 0,
        claims > 0 ==> granted(false, claims) == 1,
    decreases claims,
{
    if claims > 0 {
        lemma_latch_grants_once(true, (claims - 1) as nat);
        lemma_latch_grants_once(started, (claims - 1) as nat);
    }
}

} // verus!
