//! Invented events for trying out the presentation layer: what is made
//! of the numbers that were drawn for them.

use vstd::prelude::*;

verus! {

/// The kinds of invented events.
#[derive(Debug, Clone, Copy, PartialEq, Eq)]
pub enum MockKind {
    Donation,
    Subscription,
    Follow,
}

/// Pause before the next invented event, in seconds: between 5 and 14.
pub fn mock_delay_secs(draw: u64) -> (secs: u64)
    ensures
        secs == draw % 10 + 5,
        5 <= secs <= 14,
{
    draw % 10 + 5
}

/// The kind of the next invented event; each kind takes a third of the
/// draws.
pub fn mock_kind(draw: u8) -> (kind: MockKind)
    ensures
        draw % 3 == 0 ==> kind == MockKind::Donation,
        draw % 3 == 1 ==> kind == MockKind::Subscription,
        draw % 3 == 2 ==> kind == MockKind::Follow,
{
    let pick: u8 = draw % 3;
    if pick == 0 {
        MockKind::Donation
    } else if pick == 1 {
        MockKind::Subscription
    } else {
        MockKind::Follow
    }
}

/// The tier of an invented subscription: 1, 2 or 3.
pub fn mock_tier(draw: u8) -> (tier: u8)
    ensures
        tier == draw % 3 + 1,
        1 <= tier <= 3,
{
    draw % 3 + 1
}

/// The number that follows the name of an invented user: below 1000.
pub fn mock_user_number(draw: u16) -> (number: u16)
    ensures
        number == draw % 1000,
        number < 1000,
{
    draw % 1000
}

} // verus!
