//! Events as they arrive from the push-style backend and as they leave
//! for the presentation layer.

use vstd::prelude::*;
use crate::badge::{
    badges_view, process_message_badges, shown_badges, BadgeCache, BadgeCacheView, RawBadge,
    SimpleBadge, SimpleBadgeView,
};
use crate::color::{display_color, is_hex_color};
use crate::queue::{texts, OutboundQueue};

verus! {

/// Pause between two iterations of the push-style loop, in milliseconds.
pub const TWITCH_TICK_MILLIS: u64 = 100;

/// Longest wait for one event of the push-style backend, in milliseconds.
pub const TWITCH_POLL_WAIT_MILLIS: u64 = 1;

/// A chat line as the presentation layer receives it.
#[derive(Debug, Clone)]
pub struct ChatEvent {
    pub user: String,
    pub color: String,
    pub message: String,
    pub badges: Vec<SimpleBadge>,
    pub timestamp: Option<String>,
}

/// Mathematical value of a [`ChatEvent`].
pub struct ChatEventView {
    pub user: Seq<char>,
    pub color: Seq<char>,
    pub message: Seq<char>,
    pub badges: Seq<SimpleBadgeView>,
    pub timestamp: Option<Seq<char>>,
}

impl View for ChatEvent {
    type V = ChatEventView;

    open spec fn view(&self) -> ChatEventView {
        ChatEventView {
            user: self.user@,
            color: self.color@,
            message: self.message@,
            badges: badges_view(self.badges@),
            timestamp: match self.timestamp {
                Some(t) => Some(t@),
                None => None,
            },
        }
    }
}

/// A new follower as the presentation layer receives it.
#[derive(Debug, Clone)]
pub struct FollowEvent {
    pub user: String,
}

/// What the push-style backend delivers.
#[derive(Debug, Clone)]
pub enum TwitchEvent {
    /// Somebody wrote in chat.
    ChatMessage { user: String, colour: String, text: String, badges: Vec<RawBadge> },
    /// Somebody followed the channel.
    Follow { user: String },
    /// Anything else; the loop passes over it.
    Other,
}

/// What the loop hands to the presentation layer.
#[derive(Debug, Clone)]
pub enum Emitted {
    /// Event `chat-message`.
    Chat(ChatEvent),
    /// Event `follow`.
    Follow(FollowEvent),
}

/// The chat line shown for a message in a given colour.
pub open spec fn enriched(
    cache: BadgeCacheView,
    user: Seq<char>,
    color: Seq<char>,
    text: Seq<char>,
    badges: Seq<RawBadge>,
) -> ChatEventView {
    ChatEventView { user, color, message: text, badges: shown_badges(cache, badges), timestamp: None }
}

/// Builds the chat line for one message of the push-style backend, in
/// the colour it is to be shown in.
pub fn enrich_chat(cache: &BadgeCache, user: String, color: String, text: String, badges: &Vec<RawBadge>) -> (event:
    ChatEvent)
    ensures
        event@ == enriched(cache@, user@, color@, text@, badges@),
{
    let shown = process_message_badges(cache, badges);
    ChatEvent { user, color, message: text, badges: shown, timestamp: None }
}

/// Whether `color` may be shown for a message that came with `sent`: it
/// is the colour sent, or, where none was sent, any colour in the
/// notation `#rrggbb`.
pub open spec fn color_fits(sent: Seq<char>, color: Seq<char>) -> bool {
    if sent.len() == 0 {
        is_hex_color(color)
    } else {
        color == sent
    }
}

/// Whether `out` is what the loop emits for `event`: for a chat message
/// its enriched line in a fitting colour; for a follow the follower's
/// name, unchanged. Nothing is emitted for any other event.
pub open spec fn emits(cache: BadgeCacheView, event: TwitchEvent, out: Emitted) -> bool {
    match event {
        TwitchEvent::ChatMessage { user, colour, text, badges } => {
            &&& out is Chat
            &&& color_fits(colour@, out->Chat_0@.color)
            &&& out->Chat_0@ == enriched(cache, user@, out->Chat_0@.color, text@, badges@)
        },
        TwitchEvent::Follow { user } => out is Follow && out->Follow_0.user@ == user@,
        TwitchEvent::Other => false,
    }
}

/// A chat line that is emitted for a message without a colour has a
/// colour all the same: seven characters in the notation `#rrggbb`.
pub proof fn lemma_emitted_color_is_valid(cache: BadgeCacheView, event: TwitchEvent, out: Emitted)
    requires
        emits(cache, event, out),
        event is ChatMessage,
        event->colour@.len() == 0,
    ensures
        out is Chat,
        is_hex_color(out->Chat_0@.color),
        out->Chat_0@.color.len() > 0,
{
}

/// The events that lead to an emission, in their order of arrival.
pub open spec fn emitting(events: Seq<TwitchEvent>) -> Seq<TwitchEvent>
    decreases events.len(),
{
    if events.len() == 0 {
        Seq::empty()
    } else if events.last() is Other {
        emitting(events.drop_last())
    } else {
        emitting(events.drop_last()).push(events.last())
    }
}

/// Turns one batch of backend events into what the presentation layer
/// receives: one emission per chat message and per follow, in order of
/// arrival; other events leave no trace.
pub fn process_events(cache: &BadgeCache, events: &Vec<TwitchEvent>) -> (out: Vec<Emitted>)
    ensures
        out@.len() == emitting(events@).len(),
        forall|i: int| 0 <= i < out@.len() ==> emits(cache@, emitting(events@)[i], #[trigger] out@[i]),
{
    let mut out: Vec<Emitted> = Vec::new();
    let mut i: usize = 0;
    assert(events@.take(0) =~= Seq::<TwitchEvent>::empty());
    while i < events.len()
        invariant
            i <= events@.len(),
            out@.len() == emitting(events@.take(i as int)).len(),
            forall|j: int| 0 <= j < out@.len() ==> emits(cache@, emitting(events@.take(i as int))[j], #[trigger] out@[j]),
        decreases events@.len() - i,
    {
        proof {
            assert(events@.take(i + 1).drop_last() =~= events@.take(i as int));
            assert(events@.take(i + 1).last() == events@[i as int]);
        }
        match &events[i] {
            TwitchEvent::ChatMessage { user, colour, text, badges } => {
                let color = display_color(colour.clone());
                let event = enrich_chat(cache, user.clone(), color, text.clone(), badges);
                out.push(Emitted::Chat(event));
            },
            TwitchEvent::Follow { user } => {
                out.push(Emitted::Follow(FollowEvent { user: user.clone() }));
            },
            TwitchEvent::Other => {},
        }
        i += 1;
    }
    assert(events@.take(i as int) =~= events@);
    out
}

/// What one iteration of the push-style loop leads to.
#[derive(Debug)]
pub struct TwitchStep {
    /// For the presentation layer, in this order.
    pub emitted: Vec<Emitted>,
    /// For the backend, in this order; each is sent once, whether or not
    /// the one before it got through.
    pub outgoing: Vec<String>,
    /// Pause before the next iteration.
    pub sleep_millis: u64,
}

/// One iteration of the push-style loop: the batch that was polled is
/// turned into emissions, and the outbound queue is emptied into the
/// list of messages to send, oldest first.
pub fn twitch_step(cache: &BadgeCache, events: &Vec<TwitchEvent>, queue: &mut OutboundQueue) -> (step:
    TwitchStep)
    ensures
        step.emitted@.len() == emitting(events@).len(),
        forall|i: int|
            0 <= i < step.emitted@.len() ==> emits(cache@, emitting(events@)[i], #[trigger] step.emitted@[i]),
        texts(step.outgoing@) == old(queue)@,
        final(queue)@.len() == 0,
        step.sleep_millis == TWITCH_TICK_MILLIS,
{
    let emitted = process_events(cache, events);
    let outgoing = queue.drain();
    TwitchStep { emitted, outgoing, sleep_millis: TWITCH_TICK_MILLIS }
}

} // verus!
