//! What can go wrong while a session is set up.

use vstd::prelude::*;
use vstd::string::StringExecFns;
use crate::environ::ENV_TARGET;

verus! {

/// Where a target that cannot be used came from.
#[derive(Clone, Copy, Debug, PartialEq, Eq, Structural)]
pub enum TargetOrigin {
    /// It is one of the targets that the caller named.
    Named,
    /// It is the target handed down in `REDO_TARGET`.
    HandedDown,
}

/// Why a session could not be set up.
#[derive(Clone, Debug, PartialEq, Eq)]
pub enum RedoError {
    /// The process was not started from inside a tree of invocations.
    Usage,
    /// A target that was named has no parent directory, or the target
    /// handed down is not a relative path. Holds the target as it was given,
    /// and where it came from.
    InvalidTarget(String, TargetOrigin),
    /// The indentation handed down holds something other than spaces. Holds
    /// the indentation as it was given.
    MalformedDepth(String),
    /// The targets' directories and the working directory have no ancestor
    /// in common.
    NoCommonBase,
}

/// A [`RedoError`] with its texts as sequences of characters.
pub ghost enum RedoErrorView {
    Usage,
    InvalidTarget(Seq<char>, TargetOrigin),
    MalformedDepth(Seq<char>),
    NoCommonBase,
}

impl View for RedoError {
    type V = RedoErrorView;

    open spec fn view(&self) -> RedoErrorView {
        match self {
            RedoError::Usage => RedoErrorView::Usage,
            RedoError::InvalidTarget(t, origin) => RedoErrorView::InvalidTarget(t@, *origin),
            RedoError::MalformedDepth(d) => RedoErrorView::MalformedDepth(d@),
            RedoError::NoCommonBase => RedoErrorView::NoCommonBase,
        }
    }
}

/// `s` between double quotes, with the characters that cannot stand there
/// as they are written as escapes: what `{:?}` prints for a string.
pub uninterp spec fn quoted(s: Seq<char>) -> Seq<char>;

/// Formats `s` with `{:?}`. Trusted: the result is what that prints.
#[verifier::external_body]
fn quote(s: &str) -> (r: String)
    ensures
        r@ == quoted(s@),
{
    format!("{:?}", s)
}

impl RedoErrorView {
    /// The message that describes the error. That of a target handed down
    /// starts with the name of the variable that held it.
    pub open spec fn message(self) -> Seq<char> {
        match self {
            RedoErrorView::Usage => "must be run from inside a .do"@,
            RedoErrorView::InvalidTarget(t, TargetOrigin::Named) => "invalid target "@ + quoted(t),
            RedoErrorView::InvalidTarget(t, TargetOrigin::HandedDown) => ENV_TARGET@ + ": "@
                + "invalid target "@ + quoted(t),
            RedoErrorView::MalformedDepth(d) => "REDO_DEPTH="@ + quoted(d)
                + " contains non-space characters"@,
            RedoErrorView::NoCommonBase => "targets share no directory with the working directory"@,
        }
    }
}

/// The message for a target handed down starts with the name of the
/// variable that held it, and that for a malformed indentation with the
/// name of its variable.
pub proof fn lemma_message_names_variable(value: Seq<char>)
    ensures
        ENV_TARGET@.is_prefix_of(
            RedoErrorView::InvalidTarget(value, TargetOrigin::HandedDown).message(),
        ),
        "REDO_DEPTH="@.is_prefix_of(RedoErrorView::MalformedDepth(value).message()),
{
    let t = RedoErrorView::InvalidTarget(value, TargetOrigin::HandedDown).message();
    assert(t =~= ENV_TARGET@ + (": "@ + "invalid target "@ + quoted(value)));
    let d = RedoErrorView::MalformedDepth(value).message();
    assert(d =~= "REDO_DEPTH="@ + (quoted(value) + " contains non-space characters"@));
}

impl RedoError {
    /// The message that describes the error.
    pub fn message(&self) -> (r: String)
        ensures
            r@ == self@.message(),
    {
        match self {
            RedoError::Usage => String::from_str("must be run from inside a .do"),
            RedoError::InvalidTarget(t, origin) => {
                let mut out = match origin {
                    TargetOrigin::Named => String::new(),
                    TargetOrigin::HandedDown => {
                        let mut prefix = String::from_str(ENV_TARGET);
                        prefix.append(": ");
                        prefix
                    },
                };
                out.append("invalid target ");
                let q = quote(t.as_str());
                out.append(q.as_str());
                out
            },
            RedoError::MalformedDepth(d) => {
                let mut out = String::from_str("REDO_DEPTH=");
                let q = quote(d.as_str());
                out.append(q.as_str());
                out.append(" contains non-space characters");
                out
            },
            RedoError::NoCommonBase => String::from_str(
                "targets share no directory with the working directory",
            ),
        }
    }
}

} // verus!
