//! The token-level error returned to the tokenizer's caller.

use vstd::prelude::*;

use crate::position::{pos_rendered, ErrorPos};
use crate::stream::{stream_rendered, StreamError};
use crate::token::{token_rendered, TokenType};

verus! {

/// An XML parser errors.
#[derive(Debug)]
pub enum Error {
    /// An invalid token with an optional cause.
    InvalidToken(TokenType, ErrorPos, Option<StreamError>),
    /// An unexpected token.
    UnexpectedToken(TokenType, ErrorPos),
    /// An unknown token.
    UnknownToken(ErrorPos),
}

/// The one-line diagnostic of each variant. An `InvalidToken` cites its
/// cause, when one is present, by the cause's own rendering.
pub open spec fn error_rendered(e: Error) -> Seq<char> {
    match e {
        Error::InvalidToken(t, pos, Some(cause)) => "invalid token '"@ + token_rendered(t)
            + "' at "@ + pos_rendered(pos) + " cause "@ + stream_rendered(cause),
        Error::InvalidToken(t, pos, None) => "invalid token '"@ + token_rendered(t) + "' at "@
            + pos_rendered(pos),
        Error::UnexpectedToken(t, pos) => "unexpected token '"@ + token_rendered(t) + "' at "@
            + pos_rendered(pos),
        Error::UnknownToken(pos) => "unknown token at "@ + pos_rendered(pos),
    }
}

impl Error {
    /// An attached cause must itself be renderable.
    pub open spec fn wf(self) -> bool {
        match self {
            Error::InvalidToken(_, _, Some(cause)) => cause.wf(),
            _ => true,
        }
    }

    /// Renders the one-line diagnostic that `error_rendered` states.
    pub fn display(&self) -> (r: String)
        requires
            self.wf(),
        ensures
            r@ == error_rendered(*self),
    {
        match self {
            Error::InvalidToken(t, pos, cause) => {
                let mut s = String::from_str("invalid token '");
                s.append(t.display());
                s.append("' at ");
                let p = pos.display();
                s.append(p.as_str());
                match cause {
                    Some(inner) => {
                        s.append(" cause ");
                        let text = inner.display();
                        s.append(text.as_str());
                    },
                    None => {},
                }
                proof {
                    assert(s@ =~= error_rendered(*self));
                }
                s
            },
            Error::UnexpectedToken(t, pos) => {
                let mut s = String::from_str("unexpected token '");
                s.append(t.display());
                s.append("' at ");
                let p = pos.display();
                s.append(p.as_str());
                proof {
                    assert(s@ =~= error_rendered(*self));
                }
                s
            },
            Error::UnknownToken(pos) => {
                let mut s = String::from_str("unknown token at ");
                let p = pos.display();
                s.append(p.as_str());
                proof {
                    assert(s@ =~= error_rendered(*self));
                }
                s
            },
        }
    }

    /// A stable, coarse-grained label for this error category.
    pub fn description(&self) -> (r: &'static str)
        ensures
            r@ == "an XML parsing error"@,
    {
        "an XML parsing error"
    }
}

/// An invalid-token error with a cause renders as the same error without
/// the cause, followed by `" cause "` and the cause's own rendering,
/// verbatim; without a cause, the rendering carries no such suffix.
pub proof fn lemma_invalid_token_cause_suffix(t: TokenType, pos: ErrorPos, cause: StreamError)
    ensures
        error_rendered(Error::InvalidToken(t, pos, Some(cause))) == error_rendered(
            Error::InvalidToken(t, pos, None),
        ) + " cause "@ + stream_rendered(cause),
{
    assert(error_rendered(Error::InvalidToken(t, pos, Some(cause))) =~= error_rendered(
        Error::InvalidToken(t, pos, None),
    ) + " cause "@ + stream_rendered(cause));
}

/// An unknown-token error renders from its position alone: a fixed
/// phrase followed by the position, with no token kind mentioned.
pub proof fn lemma_unknown_token_mentions_only_position(pos: ErrorPos)
    ensures
        error_rendered(Error::UnknownToken(pos)) == "unknown token at "@ + pos_rendered(pos),
{
}

} // verus!
