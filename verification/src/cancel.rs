//! The shared cancellation flag, kept in its original shape: a
//! `tokio_util` cancellation token cloned between the run and whoever may
//! cancel it. The token is opaque here and another actor may set it at any
//! moment, so nothing is promised about what a poll observes; every
//! decision that depends on a poll takes the observed value as an
//! argument and is verified for both outcomes.

use vstd::prelude::*;

verus! {

#[verifier::external_type_specification]
#[verifier::external_body]
pub struct ExCancellationToken(tokio_util::sync::CancellationToken);

/// Relies on `tokio_util::sync::CancellationToken::new`: a fresh token.
/// Its state is shared and mutable, so nothing is stated of it.
pub assume_specification[ tokio_util::sync::CancellationToken::new ]() -> (t:
    tokio_util::sync::CancellationToken);

/// Relies on `tokio_util::sync::CancellationToken::cancel`: sets the
/// shared flag, a one-way transition every clone observes.
pub assume_specification[ tokio_util::sync::CancellationToken::cancel ](
    t: &tokio_util::sync::CancellationToken,
);

/// Relies on `tokio_util::sync::CancellationToken::is_cancelled`: the
/// shared flag's state at the moment of the poll; a concurrent cancel
/// means two polls may disagree, so the result is unconstrained.
pub assume_specification[ tokio_util::sync::CancellationToken::is_cancelled ](
    t: &tokio_util::sync::CancellationToken,
) -> (r: bool);

} // verus!
