//! Failures callers may want to branch on (auth vs rate limit vs mismatch)
//! rather than a single opaque transport error.

use std::time::Duration;

use vstd::prelude::*;

use crate::types::ProviderKind;

verus! {

/// What went wrong with a request, a reply or an operation on a conversation.
#[derive(Debug)]
pub enum Error {
    Http { status: u16, message: String },
    RateLimited { retry_after: Option<Duration> },
    Auth,
    InvalidRequest(String),
    /// Conversation already holds content only one backend can round-trip.
    ProviderMismatch { conversation: ProviderKind, client: ProviderKind },
    /// A text is not the JSON it should be; the parser's message.
    Deserialize(String),
    /// The exchange itself failed; the transport's message.
    Transport(String),
}

/// An error as mathematics sees it.
pub enum ErrorView {
    Http { status: u16, message: Seq<char> },
    RateLimited { retry_after: Option<Duration> },
    Auth,
    InvalidRequest(Seq<char>),
    ProviderMismatch { conversation: ProviderKind, client: ProviderKind },
    Deserialize(Seq<char>),
    Transport(Seq<char>),
}

impl View for Error {
    type V = ErrorView;

    open spec fn view(&self) -> ErrorView {
        match *self {
            Error::Http { status, message } => ErrorView::Http { status, message: message@ },
            Error::RateLimited { retry_after } => ErrorView::RateLimited { retry_after },
            Error::Auth => ErrorView::Auth,
            Error::InvalidRequest(message) => ErrorView::InvalidRequest(message@),
            Error::ProviderMismatch { conversation, client } => ErrorView::ProviderMismatch {
                conversation,
                client,
            },
            Error::Deserialize(message) => ErrorView::Deserialize(message@),
            Error::Transport(message) => ErrorView::Transport(message@),
        }
    }
}

/// An error is seen by its kind and by all it says.
pub proof fn errors_are_seen_whole(e: Error)
    ensures
        match e {
            Error::Http { status, message } => e@ == (ErrorView::Http {
                status,
                message: message@,
            }),
            Error::RateLimited { retry_after } => e@ == (ErrorView::RateLimited { retry_after }),
            Error::Auth => e@ == ErrorView::Auth,
            Error::InvalidRequest(message) => e@ == ErrorView::InvalidRequest(message@),
            Error::ProviderMismatch { conversation, client } => e@
                == (ErrorView::ProviderMismatch { conversation, client }),
            Error::Deserialize(message) => e@ == ErrorView::Deserialize(message@),
            Error::Transport(message) => e@ == ErrorView::Transport(message@),
        },
{
}

} // verus!
