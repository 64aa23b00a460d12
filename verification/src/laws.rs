//! What holds of every error and of every conversion, proved from the
//! definitions of the library.

use vstd::prelude::*;
use crate::error::{FromError, StandardError};
use crate::foreign::ForeignError;

verus! {

/// A fixed message converts to a `Static` error that describes itself with
/// exactly that message, and has neither detail nor cause.
pub proof fn static_message_is_description(message: &'static str)
    ensures
        <StandardError as FromError<&'static str>>::converted(message) is Static,
        <StandardError as FromError<&'static str>>::converted(message)@[0].description == message@,
        <StandardError as FromError<&'static str>>::converted(message)@[0].detail is None,
        <StandardError as FromError<&'static str>>::converted(message).cause_link() is None,
{
}

/// A message built at run time converts to a `Dynamic` error that owns that
/// very string, describes itself with exactly its text, and has neither
/// detail nor cause.
pub proof fn dynamic_message_is_description(message: String)
    ensures
        <StandardError as FromError<String>>::converted(message) == StandardError::Dynamic(message),
        <StandardError as FromError<String>>::converted(message)@[0].description == message@,
        <StandardError as FromError<String>>::converted(message)@[0].detail is None,
        <StandardError as FromError<String>>::converted(message).cause_link() is None,
{
}

/// A foreign error converts to a `Wrapped` error that answers as the foreign
/// error does: the same chain, so the same description and detail, and the
/// very same cause.
pub proof fn wrapped_error_answers_alike(err: ForeignError)
    ensures
        <StandardError as FromError<ForeignError>>::converted(err) is Wrapped,
        <StandardError as FromError<ForeignError>>::converted(err)@ == err@,
        <StandardError as FromError<ForeignError>>::converted(err)@[0].description
            == err@[0].description,
        <StandardError as FromError<ForeignError>>::converted(err)@[0].detail == err@[0].detail,
        <StandardError as FromError<ForeignError>>::converted(err).cause_link()
            == err.cause_link(),
{
}

/// An error that is a message, fixed or built, is a chain of one link: it has
/// no cause and no detail.
pub proof fn message_has_no_cause(error: StandardError)
    requires
        error is Static || error is Dynamic,
    ensures
        error.cause_link() is None,
        error@.len() == 1,
        error@[0].detail is None,
{
}

/// The chain of a foreign error starts with what the error says of itself and
/// goes on with the chain of its cause; without a cause it ends there.
pub proof fn foreign_chain_follows_causes(err: ForeignError)
    ensures
        err@.len() >= 1,
        err@[0] == err.link(),
        match err.cause_link() {
            Some(upstream) => err@.drop_first() == upstream@,
            None => err@.len() == 1,
        },
{
    match err.cause {
        Some(upstream) => {
            assert(err@.drop_first() =~= upstream@);
        },
        None => {},
    }
}

/// The chain of a unified error is never empty, and what follows its first
/// link is the chain of its cause.
pub proof fn chain_follows_causes(error: StandardError)
    ensures
        error@.len() >= 1,
        match error.cause_link() {
            Some(upstream) => error@.drop_first() == upstream@,
            None => error@.len() == 1,
        },
{
    match error {
        StandardError::Wrapped(inner) => {
            foreign_chain_follows_causes(*inner);
        },
        _ => {},
    }
}

} // verus!
