//! The unified error and the rules that turn a value into one.

use vstd::prelude::*;
use crate::foreign::{ForeignError, Link};

verus! {

/// A failure in one of three shapes.
pub enum StandardError {
    /// A message fixed when the program was written.
    Static(&'static str),
    /// A message put together while the program ran.
    Dynamic(String),
    /// A foreign error, owned by this value and carried unchanged.
    Wrapped(Box<ForeignError>),
}

/// The result of an operation that fails with a unified error.
pub type StandardResult<T> = Result<T, StandardError>;

impl View for StandardError {
    type V = Seq<Link>;

    /// The error as a chain: a message is a single link without detail, a
    /// wrapped error is the chain of the error it carries.
    open spec fn view(&self) -> Seq<Link> {
        match self {
            StandardError::Static(message) => seq![Link { description: message@, detail: None }],
            StandardError::Dynamic(message) => seq![Link { description: message@, detail: None }],
            StandardError::Wrapped(inner) => inner@,
        }
    }
}

impl StandardError {
    /// The error immediately upstream, as `cause` returns it: that of the
    /// wrapped error, and none for a message.
    pub open spec fn cause_link(&self) -> Option<&ForeignError> {
        match self {
            StandardError::Wrapped(inner) => inner.cause_link(),
            _ => None,
        }
    }

    /// Describes the failure. A message is returned as stored; a wrapped error
    /// is asked for its own description.
    pub fn description(&self) -> (text: &str)
        ensures
            text@ == self@[0].description,
    {
        match self {
            StandardError::Static(message) => message,
            StandardError::Dynamic(message) => message.as_str(),
            StandardError::Wrapped(inner) => inner.description(),
        }
    }

    /// The immediate cause, one link up: the cause of the wrapped error,
    /// borrowed from it, and none for a message.
    pub fn cause(&self) -> (link: Option<&ForeignError>)
        ensures
            link == self.cause_link(),
            self is Static || self is Dynamic ==> link is None,
            match link {
                Some(upstream) => upstream@ == self@.drop_first(),
                None => self@.len() == 1,
            },
    {
        match self {
            StandardError::Wrapped(inner) => inner.cause(),
            _ => None,
        }
    }

    /// Extended diagnostic text: that of the wrapped error, and none for a
    /// message.
    pub fn detail(&self) -> (text: Option<&str>)
        ensures
            self is Static || self is Dynamic ==> text is None,
            match text {
                Some(t) => self@[0].detail == Some(t@),
                None => self@[0].detail is None,
            },
    {
        match self {
            StandardError::Wrapped(inner) => inner.detail(),
            _ => None,
        }
    }

    /// The error as text for a reader: its description, in a string of its own.
    pub fn render(&self) -> (text: String)
        ensures
            text@ == self@[0].description,
    {
        self.description().to_owned()
    }
}

/// A conversion into an error type, chosen by the type of the value.
pub trait FromError<T>: Sized {
    /// What the conversion makes of `err`.
    spec fn converted(err: T) -> Self;

    /// Converts `err`.
    fn from_error(err: T) -> (error: Self)
        ensures
            error == Self::converted(err),
    ;
}

/// A fixed message becomes a `Static` error that holds the message itself.
impl FromError<&'static str> for StandardError {
    open spec fn converted(err: &'static str) -> StandardError {
        StandardError::Static(err)
    }

    fn from_error(err: &'static str) -> (error: StandardError) {
        StandardError::Static(err)
    }
}

/// A message built at run time becomes a `Dynamic` error that owns the very
/// string it was given.
impl FromError<String> for StandardError {
    open spec fn converted(err: String) -> StandardError {
        StandardError::Dynamic(err)
    }

    fn from_error(err: String) -> (error: StandardError) {
        StandardError::Dynamic(err)
    }
}

/// A foreign error becomes a `Wrapped` error: it is moved to the heap and
/// carried as it is.
impl FromError<ForeignError> for StandardError {
    open spec fn converted(err: ForeignError) -> StandardError {
        StandardError::Wrapped(Box::new(err))
    }

    fn from_error(err: ForeignError) -> (error: StandardError) {
        StandardError::Wrapped(Box::new(err))
    }
}

} // verus!
