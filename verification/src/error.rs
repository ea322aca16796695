//! The error channel: the single adapter between the engine's
//! out-parameter style of reporting failures and ordinary success/failure
//! results.
//!
//! Every fallible operation follows one pattern: open a fresh channel, run
//! exactly one operation against it, inspect [`Error::is_set`], and return
//! either the operation's result or the channel as the failure value.  A
//! channel carries at most one engine-reported detail and at most one
//! locally raised comment; it is set as soon as either is present.

use vstd::prelude::*;

verus! {

/// Abstract state of an error channel: an optional engine-reported detail
/// and a locally raised comment (empty when none was raised).
pub struct ErrorView {
    pub engine: Option<Seq<char>>,
    pub comment: Seq<char>,
}

impl ErrorView {
    /// A channel signals failure as soon as the engine reported a detail or
    /// a local comment was raised.
    pub open spec fn is_set(self) -> bool {
        self.engine is Some || self.comment.len() > 0
    }

    /// The text a reader of the failure sees: the engine's detail when
    /// there is one, the local comment otherwise.
    pub open spec fn message(self) -> Seq<char> {
        match self.engine {
            Some(detail) => detail,
            None => self.comment,
        }
    }
}

/// A fallible call's error channel.
#[derive(Debug)]
pub struct Error {
    engine: Option<String>,
    comment: String,
}

impl View for Error {
    type V = ErrorView;

    closed spec fn view(&self) -> ErrorView {
        ErrorView {
            engine: match self.engine {
                Some(detail) => Some(detail@),
                None => None,
            },
            comment: self.comment@,
        }
    }
}

impl Error {
    /// A fresh, unset channel.
    pub fn new() -> (r: Error)
        ensures
            r@.engine is None,
            r@.comment == Seq::<char>::empty(),
            !r@.is_set(),
    {
        Error { engine: None, comment: String::new() }
    }

    /// A channel into which the engine reported the given detail.
    pub(crate) fn engine_report(detail: &str) -> (r: Error)
        ensures
            r@.engine == Some(detail@),
            r@.comment == Seq::<char>::empty(),
    {
        Error { engine: Some(detail.to_owned()), comment: String::new() }
    }

    /// Raises a local failure with the given description, independent of
    /// any engine signal.
    pub fn set(&mut self, comment: &str)
        ensures
            final(self)@ == (ErrorView { comment: comment@, ..old(self)@ }),
    {
        self.comment = comment.to_owned();
    }

    /// True as soon as the engine reported a detail or a local comment was
    /// raised.
    pub fn is_set(&self) -> (r: bool)
        ensures
            r == self@.is_set(),
    {
        self.engine.is_some() || !self.comment.as_str().is_empty()
    }

    /// The failure text: the engine's detail when there is one, the local
    /// comment otherwise.
    pub fn message(&self) -> (r: String)
        ensures
            r@ == self@.message(),
    {
        match &self.engine {
            Some(detail) => detail.clone(),
            None => self.comment.clone(),
        }
    }
}

} // verus!
