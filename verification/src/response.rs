//! Redirects, the one kind of response that this crate decides on.

use vstd::prelude::*;

verus! {

/// Status of a redirect that the client must not remember.
pub const TEMPORARY_REDIRECT: u16 = 307;

/// Status of a redirect that the client may remember.
pub const PERMANENT_REDIRECT: u16 = 308;

/// A redirect to `location`.
#[derive(Debug, PartialEq, Eq)]
pub struct Redirect {
    pub location: String,
    pub permanent: bool,
}

/// A redirect, as contracts see it.
pub struct RedirectView {
    pub location: Seq<char>,
    pub permanent: bool,
}

impl View for Redirect {
    type V = RedirectView;

    open spec fn view(&self) -> RedirectView {
        RedirectView { location: self.location@, permanent: self.permanent }
    }
}

impl Redirect {
    /// A redirect that the client follows this once.
    pub fn temporary(location: &str) -> (r: Redirect)
        ensures
            r@ == (RedirectView { location: location@, permanent: false }),
    {
        Redirect { location: location.to_owned(), permanent: false }
    }

    /// A redirect that the client may follow from now on.
    pub fn permanent(location: &str) -> (r: Redirect)
        ensures
            r@ == (RedirectView { location: location@, permanent: true }),
    {
        Redirect { location: location.to_owned(), permanent: true }
    }

    /// The status code that the redirect is sent with.
    pub fn status(&self) -> (code: u16)
        ensures
            code == if self.permanent {
                PERMANENT_REDIRECT
            } else {
                TEMPORARY_REDIRECT
            },
    {
        if self.permanent {
            PERMANENT_REDIRECT
        } else {
            TEMPORARY_REDIRECT
        }
    }
}

} // verus!
