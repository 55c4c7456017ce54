//! The check that a request shows the shared secret.

use vstd::prelude::*;
use crate::consts::Config;
use crate::http::{BAD_REQUEST, UNAUTHORIZED};

verus! {

/// The `Authorization` header of a request as the caller found it.
#[derive(Debug)]
pub enum AuthHeader {
    /// The request has no such header.
    Missing,
    /// The header's value is no text.
    Opaque,
    /// The header's value.
    Text(String),
}

/// Decides whether a request may pass: it may where its `Authorization`
/// header is, letter for letter, the configured secret. A request without
/// the header, or with another value, is answered with 401; one whose
/// header is no text, with 400.
pub fn authorize(header: &AuthHeader, config: &Config) -> (passed: Result<(), u16>)
    ensures
        match header {
            AuthHeader::Missing => passed == Err::<(), u16>(UNAUTHORIZED),
            AuthHeader::Opaque => passed == Err::<(), u16>(BAD_REQUEST),
            AuthHeader::Text(shown) => if shown@ == config.service_secret_token@ {
                passed is Ok
            } else {
                passed == Err::<(), u16>(UNAUTHORIZED)
            },
        },
{
    match header {
        AuthHeader::Missing => Err(UNAUTHORIZED),
        AuthHeader::Opaque => Err(BAD_REQUEST),
        AuthHeader::Text(shown) => {
            if *shown == config.service_secret_token {
                Ok(())
            } else {
                Err(UNAUTHORIZED)
            }
        },
    }
}

} // verus!
