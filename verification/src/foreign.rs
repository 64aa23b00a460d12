//! Errors of other subsystems, as the data that a unified error reads.

use vstd::prelude::*;

verus! {

/// What one error of a chain says of itself.
pub struct Link {
    /// The short description of the failure.
    pub description: Seq<char>,
    /// Extended diagnostic text, where the error has some.
    pub detail: Option<Seq<char>>,
}

/// An error of another subsystem: its description, the detail it may add, and
/// the error immediately upstream of it, if there is one.
///
/// The value owns its cause, so a foreign error is a finite chain that ends in
/// an error without a cause.
pub struct ForeignError {
    /// The short description of the failure.
    pub description: String,
    /// Extended diagnostic text.
    pub detail: Option<String>,
    /// The error that caused this one.
    pub cause: Option<Box<ForeignError>>,
}

impl View for ForeignError {
    type V = Seq<Link>;

    /// The chain from this error up to the first cause: never empty, this
    /// error first.
    open spec fn view(&self) -> Seq<Link> {
        self.chain()
    }
}

impl ForeignError {
    /// This error, then its cause, then the cause of that, up to the error
    /// that has none.
    pub open spec fn chain(&self) -> Seq<Link>
        decreases self,
    {
        match self.cause {
            Some(upstream) => seq![self.link()] + upstream.chain(),
            None => seq![self.link()],
        }
    }

    /// What this error says of itself, its cause left aside.
    pub open spec fn link(&self) -> Link {
        Link {
            description: self.description@,
            detail: match self.detail {
                Some(text) => Some(text@),
                None => None,
            },
        }
    }

    /// The error immediately upstream, as `cause` returns it.
    pub open spec fn cause_link(&self) -> Option<&ForeignError> {
        match self.cause {
            Some(upstream) => Some(&*upstream),
            None => None,
        }
    }

    /// An error with a description, without detail or cause.
    pub fn new(description: String) -> (error: ForeignError)
        ensures
            error.description == description,
            error.detail is None,
            error.cause is None,
            error@ == seq![Link { description: description@, detail: None }],
    {
        ForeignError { description, detail: None, cause: None }
    }

    /// The short description of the failure.
    pub fn description(&self) -> (text: &str)
        ensures
            text@ == self@[0].description,
    {
        self.description.as_str()
    }

    /// Extended diagnostic text, where the error has some.
    pub fn detail(&self) -> (text: Option<&str>)
        ensures
            match text {
                Some(t) => self@[0].detail == Some(t@),
                None => self@[0].detail is None,
            },
    {
        match &self.detail {
            Some(text) => Some(text.as_str()),
            None => None,
        }
    }

    /// The error immediately upstream, borrowed from this one.
    pub fn cause(&self) -> (link: Option<&ForeignError>)
        ensures
            link == self.cause_link(),
            match link {
                Some(upstream) => upstream@ == self@.drop_first(),
                None => self@.len() == 1,
            },
    {
        match &self.cause {
            Some(upstream) => {
                assert(self@.drop_first() =~= upstream@);
                Some(&**upstream)
            },
            None => None,
        }
    }
}

} // verus!
