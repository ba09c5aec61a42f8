//! What can go wrong while usage is fetched.

use vstd::prelude::*;

verus! {

#[derive(Debug, Clone, PartialEq, Eq)]
pub enum AppError {
    /// The vendor answered with a status that is no success.
    Http { status: u16, body: String },
    /// The vendor could not be reached, or did not answer in time.
    Transport(String),
    /// An answer or a cached payload does not have the expected shape.
    Schema(String),
    /// A text is not JSON.
    Json(String),
    Other(String),
}

/// An error with its texts as sequences of characters.
#[verifier::ext_equal]
pub enum AppErrorView {
    Http { status: u16, body: Seq<char> },
    Transport(Seq<char>),
    Schema(Seq<char>),
    Json(Seq<char>),
    Other(Seq<char>),
}

impl View for AppError {
    type V = AppErrorView;

    open spec fn view(&self) -> AppErrorView {
        match *self {
            AppError::Http { status, body } => AppErrorView::Http { status, body: body@ },
            AppError::Transport(text) => AppErrorView::Transport(text@),
            AppError::Schema(text) => AppErrorView::Schema(text@),
            AppError::Json(text) => AppErrorView::Json(text@),
            AppError::Other(text) => AppErrorView::Other(text@),
        }
    }
}

impl AppError {
    /// A failure of the network, which says nothing about the account and is not kept as the
    /// last error.
    pub fn is_transient(&self) -> (transient: bool)
        ensures
            transient == (self@ is Transport),
            transient == (*self is Transport),
    {
        match self {
            AppError::Transport(_) => true,
            _ => false,
        }
    }
}

/// What an error tells is what it holds: its kind, its status and its text.
pub proof fn law_errors_tell_what_they_hold(e: AppError)
    ensures
        e matches AppError::Http { status, body } ==> e@ == (AppErrorView::Http {
            status,
            body: body@,
        }),
        e matches AppError::Transport(text) ==> e@ == AppErrorView::Transport(text@),
        e matches AppError::Schema(text) ==> e@ == AppErrorView::Schema(text@),
        e matches AppError::Json(text) ==> e@ == AppErrorView::Json(text@),
        e matches AppError::Other(text) ==> e@ == AppErrorView::Other(text@),
{
}

}
