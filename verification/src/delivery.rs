//! Whether an outbound message got through.
//!
//! A message is handed to its backend once. Whatever the answer, it is
//! not queued again, and the loop that sent it goes on.

use vstd::prelude::*;
use vstd::string::*;

verus! {

/// Why a message was not delivered.
#[derive(Debug, Clone, PartialEq, Eq)]
pub enum SendError {
    /// The request did not get through.
    Network(String),
    /// The backend answered with a status other than success.
    ApiStatus(String),
}

/// Mathematical value of a [`SendError`].
pub enum SendErrorView {
    Network(Seq<char>),
    ApiStatus(Seq<char>),
}

impl View for SendError {
    type V = SendErrorView;

    open spec fn view(&self) -> SendErrorView {
        match self {
            SendError::Network(cause) => SendErrorView::Network(cause@),
            SendError::ApiStatus(status) => SendErrorView::ApiStatus(status@),
        }
    }
}

/// The sentence that reports a send error.
pub open spec fn send_error_text(e: SendErrorView) -> Seq<char> {
    match e {
        SendErrorView::Network(cause) => "Network error: "@ + cause,
        SendErrorView::ApiStatus(status) => "API error: Status code "@ + status,
    }
}

impl SendError {
    /// The sentence that reports this error.
    pub fn describe(&self) -> (text: String)
        ensures
            text@ == send_error_text(self@),
    {
        match self {
            SendError::Network(cause) => String::from_str("Network error: ").concat(cause.as_str()),
            SendError::ApiStatus(status) => String::from_str("API error: Status code ").concat(
                status.as_str(),
            ),
        }
    }
}

/// What became of a message, given what came back from the backend: the
/// status line of its answer (whether it is a success, and its text), or
/// the cause for which no answer came. The message is delivered exactly
/// when an answer came and its status is a success.
pub fn send_result(answer: Result<(bool, String), String>) -> (r: Result<(), SendError>)
    ensures
        match answer {
            Ok((success, status)) => (success ==> r.is_ok()) && (!success ==> r.is_err() && r.unwrap_err()@
                == SendErrorView::ApiStatus(status@)),
            Err(cause) => r.is_err() && r.unwrap_err()@ == SendErrorView::Network(cause@),
        },
{
    match answer {
        Ok((success, status)) => {
            if success {
                Ok(())
            } else {
                Err(SendError::ApiStatus(status))
            }
        },
        Err(cause) => Err(SendError::Network(cause)),
    }
}

} // verus!
