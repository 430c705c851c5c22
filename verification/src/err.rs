//! The error of the downloader: a message, or a chain of messages that ends
//! in one.

use vstd::prelude::*;
use vstd::string::StringExecFns;

verus! {

/// A failure with the messages that were put in front of it.
#[derive(Debug)]
pub enum Fail {
    /// The text of an error that came from outside.
    Error(String),
    /// A failure with a message in front of it, where one was given.
    Fail(Option<String>, Box<Fail>),
    /// A plain message.
    Message(String),
}

/// A failure as plain mathematics.
pub enum FailView {
    /// The text of an error that came from outside.
    Error(Seq<char>),
    /// A failure with a message in front of it, where one was given.
    Fail(Option<Seq<char>>, Box<FailView>),
    /// A plain message.
    Message(Seq<char>),
}

impl Fail {
    /// This failure as plain mathematics.
    pub open spec fn model(&self) -> FailView
        decreases self,
    {
        match self {
            Fail::Error(s) => FailView::Error(s@),
            Fail::Fail(None, inner) => FailView::Fail(None, Box::new(inner.model())),
            Fail::Fail(Some(m), inner) => FailView::Fail(Some(m@), Box::new(inner.model())),
            Fail::Message(s) => FailView::Message(s@),
        }
    }
}

impl View for Fail {
    type V = FailView;

    open spec fn view(&self) -> FailView {
        self.model()
    }
}

/// The line that a failure is shown as: its messages from the outermost to
/// the innermost, with `: ` between them.
pub open spec fn text(f: FailView) -> Seq<char>
    decreases f,
{
    match f {
        FailView::Error(s) => s,
        FailView::Fail(None, inner) => text(*inner),
        FailView::Fail(Some(m), inner) => m + ": "@ + text(*inner),
        FailView::Message(m) => m,
    }
}

/// What `msg` put in front of the failure `f` gives. A failure that waits
/// for its message takes it; any other is wrapped.
pub open spec fn with_msg(f: FailView, msg: Seq<char>) -> FailView {
    match f {
        FailView::Fail(None, inner) => FailView::Fail(Some(msg), inner),
        other => FailView::Fail(Some(msg), Box::new(other)),
    }
}

impl Fail {
    /// A failure that is the message `msg`.
    pub fn new(msg: &str) -> (r: Fail)
        ensures
            r@ == FailView::Message(msg@),
    {
        Fail::Message(msg.to_owned())
    }

    /// A failure that holds the text of an error from outside.
    pub fn from_error(text: &str) -> (r: Fail)
        ensures
            r@ == FailView::Error(text@),
    {
        Fail::Error(text.to_owned())
    }

    /// Puts the message `msg` in front of this failure.
    pub fn msg(self, msg: &str) -> (r: Fail)
        ensures
            r@ == with_msg(self@, msg@),
    {
        match self {
            Fail::Fail(None, inner) => Fail::Fail(Some(msg.to_owned()), inner),
            other => Fail::Fail(Some(msg.to_owned()), Box::new(other)),
        }
    }

    /// The line that this failure is shown as.
    pub fn message(&self) -> (r: String)
        ensures
            r@ == text(self@),
        decreases self,
    {
        match self {
            Fail::Error(s) => s.clone(),
            Fail::Fail(None, inner) => inner.message(),
            Fail::Fail(Some(m), inner) => {
                let mut out = m.clone();
                out.append(": ");
                let rest = inner.message();
                out.append(rest.as_str());
                out
            },
            Fail::Message(m) => m.clone(),
        }
    }
}

/// Turns the lack of a value into a failure with a message.
pub trait ErrorMessageExt<T> {
    /// The value, or a failure that carries `msg`.
    fn err_msg(self, msg: &str) -> Result<T, Fail>;
}

impl<T> ErrorMessageExt<T> for Option<T> {
    /// `None` becomes the failure that is the message `msg`.
    fn err_msg(self, msg: &str) -> (r: Result<T, Fail>)
        ensures
            match self {
                Some(v) => r == Ok::<T, Fail>(v),
                None => r.is_err() && r->Err_0@ == FailView::Message(msg@),
            },
    {
        match self {
            Some(v) => Ok(v),
            None => Err(Fail::Message(msg.to_owned())),
        }
    }
}

impl<T> ErrorMessageExt<T> for Result<T, Fail> {
    /// A failure gets the message `msg` put in front of it.
    fn err_msg(self, msg: &str) -> (r: Result<T, Fail>)
        ensures
            match self {
                Ok(v) => r == Ok::<T, Fail>(v),
                Err(f) => r.is_err() && r->Err_0@ == with_msg(f@, msg@),
            },
    {
        match self {
            Ok(v) => Ok(v),
            Err(f) => Err(f.msg(msg)),
        }
    }
}

} // verus!
