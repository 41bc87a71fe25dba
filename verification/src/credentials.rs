//! Where a fetch cycle gets its credentials from, and what is reported
//! when one of them cannot be had.

use vstd::prelude::*;
use vstd::string::*;
use crate::resolver::{BadgeNotice, Credentials};

verus! {

/// Why no credentials could be put together.
#[derive(Debug, Clone)]
pub enum CredentialError {
    /// The environment names no client id.
    ClientIdMissing,
    /// The environment names no channel id.
    ChannelIdMissing,
    /// The token file holds nothing but white space.
    TokenFileEmpty,
    /// The token file could not be read, and nothing else was tried.
    TokenFileUnreadable(String),
    /// The token file could not be read and the environment names no
    /// token either.
    NoTokenSource(String),
}

/// Mathematical value of a [`CredentialError`].
pub enum CredentialErrorView {
    ClientIdMissing,
    ChannelIdMissing,
    TokenFileEmpty,
    TokenFileUnreadable(Seq<char>),
    NoTokenSource(Seq<char>),
}

impl View for CredentialError {
    type V = CredentialErrorView;

    open spec fn view(&self) -> CredentialErrorView {
        match self {
            CredentialError::ClientIdMissing => CredentialErrorView::ClientIdMissing,
            CredentialError::ChannelIdMissing => CredentialErrorView::ChannelIdMissing,
            CredentialError::TokenFileEmpty => CredentialErrorView::TokenFileEmpty,
            CredentialError::TokenFileUnreadable(cause) => CredentialErrorView::TokenFileUnreadable(cause@),
            CredentialError::NoTokenSource(cause) => CredentialErrorView::NoTokenSource(cause@),
        }
    }
}

/// The sentence that reports a credential error.
pub open spec fn credential_error_text(e: CredentialErrorView) -> Seq<char> {
    match e {
        CredentialErrorView::ClientIdMissing => "TWITCH_CLIENT_ID not found in environment"@,
        CredentialErrorView::ChannelIdMissing => "TWITCH_CHANNEL_ID not found in environment"@,
        CredentialErrorView::TokenFileEmpty => "Token file is empty"@,
        CredentialErrorView::TokenFileUnreadable(cause) => "Error reading token file: "@ + cause,
        CredentialErrorView::NoTokenSource(cause) => "Could not read access token from any source: "@
            + cause,
    }
}

impl CredentialError {
    /// The sentence that reports this error.
    pub fn describe(&self) -> (text: String)
        ensures
            text@ == credential_error_text(self@),
    {
        match self {
            CredentialError::ClientIdMissing => String::from_str(
                "TWITCH_CLIENT_ID not found in environment",
            ),
            CredentialError::ChannelIdMissing => String::from_str(
                "TWITCH_CHANNEL_ID not found in environment",
            ),
            CredentialError::TokenFileEmpty => String::from_str("Token file is empty"),
            CredentialError::TokenFileUnreadable(cause) => String::from_str(
                "Error reading token file: ",
            ).concat(cause.as_str()),
            CredentialError::NoTokenSource(cause) => String::from_str(
                "Could not read access token from any source: ",
            ).concat(cause.as_str()),
        }
    }
}

/// The notice that tells the presentation layer why a fetch cycle never
/// started.
pub fn credential_notice(e: &CredentialError) -> (notice: BadgeNotice)
    ensures
        notice is Failed,
        notice->Failed_0@ == credential_error_text(e@),
{
    BadgeNotice::Failed(e.describe())
}

/// A character with the Unicode property `White_Space`.
pub open spec fn is_white_space(c: char) -> bool {
    ('\u{9}' <= c && c <= '\u{d}') || c == ' ' || c == '\u{85}' || c == '\u{a0}' || c == '\u{1680}' || (
    '\u{2000}' <= c && c <= '\u{200a}') || c == '\u{2028}' || c == '\u{2029}' || c == '\u{202f}' || c
        == '\u{205f}' || c == '\u{3000}'
}

/// A text without the white space at its start.
pub open spec fn trim_start(text: Seq<char>) -> Seq<char>
    decreases text.len(),
{
    if text.len() > 0 && is_white_space(text[0]) {
        trim_start(text.drop_first())
    } else {
        text
    }
}

/// A text without the white space at its end.
pub open spec fn trim_end(text: Seq<char>) -> Seq<char>
    decreases text.len(),
{
    if text.len() > 0 && is_white_space(text.last()) {
        trim_end(text.drop_last())
    } else {
        text
    }
}

/// A text without the white space at its two ends.
pub open spec fn trimmed(text: Seq<char>) -> Seq<char> {
    trim_end(trim_start(text))
}

/// A text that holds nothing but white space.
pub open spec fn is_blank(text: Seq<char>) -> bool {
    forall|i: int| 0 <= i < text.len() ==> is_white_space(#[trigger] text[i])
}

/// What `trim_start` takes away is white space, and it stops at the
/// first character that is none.
pub proof fn lemma_trim_start(text: Seq<char>)
    ensures
        trim_start(text).len() <= text.len(),
        trim_start(text) == text.subrange(text.len() - trim_start(text).len(), text.len() as int),
        forall|k: int| 0 <= k < text.len() - trim_start(text).len() ==> is_white_space(#[trigger] text[k]),
        trim_start(text).len() > 0 ==> !is_white_space(trim_start(text)[0]),
    decreases text.len(),
{
    if text.len() > 0 && is_white_space(text[0]) {
        let rest = text.drop_first();
        lemma_trim_start(rest);
        let kept = trim_start(rest);
        assert(kept =~= text.subrange(text.len() - kept.len(), text.len() as int));
        assert forall|k: int| 0 <= k < text.len() - kept.len() implies is_white_space(#[trigger] text[k]) by {
            if k > 0 {
                assert(text[k] == rest[k - 1]);
            }
        }
    } else {
        assert(text =~= text.subrange(0, text.len() as int));
    }
}

/// What `trim_end` takes away is white space, and it stops at the last
/// character that is none.
pub proof fn lemma_trim_end(text: Seq<char>)
    ensures
        trim_end(text).len() <= text.len(),
        trim_end(text) == text.subrange(0, trim_end(text).len() as int),
        forall|k: int| trim_end(text).len() <= k < text.len() ==> is_white_space(#[trigger] text[k]),
        trim_end(text).len() > 0 ==> !is_white_space(trim_end(text).last()),
    decreases text.len(),
{
    if text.len() > 0 && is_white_space(text.last()) {
        let rest = text.drop_last();
        lemma_trim_end(rest);
        let kept = trim_end(rest);
        assert(kept =~= text.subrange(0, kept.len() as int));
        assert forall|k: int| kept.len() <= k < text.len() implies is_white_space(#[trigger] text[k]) by {
            if k < rest.len() {
                assert(text[k] == rest[k]);
            }
        }
    } else {
        assert(text =~= text.subrange(0, text.len() as int));
    }
}

/// Stripping leaves a contiguous part of the text that neither begins
/// nor ends with white space, and it leaves nothing exactly when the
/// text is blank.
pub proof fn lemma_trimmed(text: Seq<char>)
    ensures
        exists|from: int, to: int|
            0 <= from <= to <= text.len() && trimmed(text) == #[trigger] text.subrange(from, to),
        trimmed(text).len() > 0 ==> !is_white_space(trimmed(text)[0]) && !is_white_space(
            trimmed(text).last(),
        ),
        trimmed(text).len() == 0 <==> is_blank(text),
{
    let middle = trim_start(text);
    let from = text.len() - middle.len();
    lemma_trim_start(text);
    lemma_trim_end(middle);
    let kept = trimmed(text);
    assert(kept =~= text.subrange(from, from + kept.len()));
    if kept.len() > 0 {
        assert(kept[0] == middle[0]);
        assert(kept[0] == text[from]);
        assert(!is_blank(text));
    } else {
        if middle.len() > 0 {
            assert(is_white_space(middle[0]));
        }
        assert(middle.len() == 0);
        assert(is_blank(text));
    }
}

/// Strips the white space from both ends of a text.
///
/// Calls `str::trim`, which removes leading and trailing characters that
/// have the Unicode property `White_Space`; the contract says which text
/// is left.
#[verifier::external_body]
pub(crate) fn trim_text(text: &str) -> (stripped: String)
    ensures
        stripped@ == trimmed(text@),
{
    text.trim().to_string()
}

/// The access token that a stripped token file yields: all of it, unless
/// nothing is left.
pub fn token_from_trimmed(stripped: String) -> (r: Result<String, CredentialError>)
    ensures
        stripped@.len() > 0 ==> r == Ok::<String, CredentialError>(stripped),
        stripped@.len() == 0 ==> r.is_err() && r.unwrap_err()@ == CredentialErrorView::TokenFileEmpty,
{
    if stripped.as_str().is_empty() {
        Err(CredentialError::TokenFileEmpty)
    } else {
        Ok(stripped)
    }
}

/// The access token that a token file yields: its content without the
/// white space around it, which must leave something.
pub fn token_from_file(content: &str) -> (r: Result<String, CredentialError>)
    ensures
        !is_blank(content@) ==> r.is_ok() && r.unwrap()@ == trimmed(content@),
        is_blank(content@) ==> r.is_err() && r.unwrap_err()@ == CredentialErrorView::TokenFileEmpty,
{
    proof {
        lemma_trimmed(content@);
    }
    token_from_trimmed(trim_text(content))
}

/// Credentials for the fetch cycle that follows the backend's start-up:
/// client and broadcaster are known by then, the token comes from the
/// token file, whose reading may have failed.
pub fn startup_credentials(client_id: String, broadcaster_id: String, token_file: Result<String, String>) -> (r:
    Result<Credentials, CredentialError>)
    ensures
        match token_file {
            Ok(content) => {
                &&& !is_blank(content@) ==> r.is_ok() && r.unwrap().token@ == trimmed(content@)
                &&& is_blank(content@) ==> r.is_err() && r.unwrap_err()@
                    == CredentialErrorView::TokenFileEmpty
            },
            Err(cause) => r.is_err() && r.unwrap_err()@ == CredentialErrorView::TokenFileUnreadable(
                cause@,
            ),
        },
        r.is_ok() ==> r.unwrap().client_id == client_id && r.unwrap().broadcaster_id == broadcaster_id,
{
    match token_file {
        Ok(content) => match token_from_file(content.as_str()) {
            Ok(token) => Ok(Credentials { client_id, token, broadcaster_id }),
            Err(e) => Err(e),
        },
        Err(cause) => Err(CredentialError::TokenFileUnreadable(cause)),
    }
}

/// Credentials for a fetch cycle that the presentation layer asked for.
///
/// Client and channel id come from the environment and both must be
/// there; the client id is missed first. The token comes from the token
/// file; only where that could not be read, the environment's token is
/// taken as it stands.
pub fn env_credentials(
    client_id: Option<String>,
    broadcaster_id: Option<String>,
    token_file: Result<String, String>,
    token_env: Option<String>,
) -> (r: Result<Credentials, CredentialError>)
    ensures
        client_id.is_none() ==> r.is_err() && r.unwrap_err()@ == CredentialErrorView::ClientIdMissing,
        client_id.is_some() && broadcaster_id.is_none() ==> r.is_err() && r.unwrap_err()@
            == CredentialErrorView::ChannelIdMissing,
        client_id.is_some() && broadcaster_id.is_some() ==> match token_file {
            Ok(content) => {
                &&& !is_blank(content@) ==> r.is_ok() && r.unwrap().token@ == trimmed(content@)
                &&& is_blank(content@) ==> r.is_err() && r.unwrap_err()@
                    == CredentialErrorView::TokenFileEmpty
            },
            Err(cause) => match token_env {
                Some(token) => r.is_ok() && r.unwrap().token == token,
                None => r.is_err() && r.unwrap_err()@ == CredentialErrorView::NoTokenSource(cause@),
            },
        },
        r.is_ok() ==> client_id == Some(r.unwrap().client_id) && broadcaster_id == Some(
            r.unwrap().broadcaster_id,
        ),
{
    let client_id = match client_id {
        Some(id) => id,
        None => {
            return Err(CredentialError::ClientIdMissing);
        },
    };
    let broadcaster_id = match broadcaster_id {
        Some(id) => id,
        None => {
            return Err(CredentialError::ChannelIdMissing);
        },
    };
    let token = match token_file {
        Ok(content) => match token_from_file(content.as_str()) {
            Ok(token) => token,
            Err(e) => {
                return Err(e);
            },
        },
        Err(cause) => match token_env {
            Some(token) => token,
            None => {
                return Err(CredentialError::NoTokenSource(cause));
            },
        },
    };
    Ok(Credentials { client_id, token, broadcaster_id })
}

} // verus!
