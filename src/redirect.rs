//! Redirect responses.

use vstd::prelude::*;
use crate::headers::{Headers, inserted};
use crate::status::valid_status;

verus! {

/// The code used when a redirect is asked for an invalid status.
pub const TEMPORARY_REDIRECT: u16 = 307;

/// What a redirect holds.
pub struct RedirectView {
    pub code: u16,
    pub location: Seq<char>,
    pub headers: Seq<(Seq<char>, Seq<char>)>,
}

/// A redirect response: a status code, a `Location` and extra headers.
#[derive(Debug)]
pub struct Redirect {
    code: u16,
    location: String,
    headers: Headers,
}

impl View for Redirect {
    type V = RedirectView;

    closed spec fn view(&self) -> RedirectView {
        RedirectView { code: self.code, location: self.location@, headers: self.headers@ }
    }
}

/// A fresh redirect to `location` with the given code.
pub open spec fn fresh_redirect(code: u16, location: Seq<char>) -> RedirectView {
    RedirectView { code, location, headers: Seq::empty() }
}

impl Redirect {
    #[verifier::type_invariant]
    closed spec fn inv(&self) -> bool {
        self.headers.wf() && valid_status(self.code)
    }

    /// A redirect with the given code (307 when the code is not a valid
    /// status).
    pub fn status(code: u16, location: &str) -> (r: Redirect)
        ensures
            r@ == fresh_redirect(
                if valid_status(code) {
                    code
                } else {
                    TEMPORARY_REDIRECT
                },
                location@,
            ),
    {
        let code = if crate::status::is_valid_status(code) {
            code
        } else {
            TEMPORARY_REDIRECT
        };
        Redirect { code, location: location.to_string(), headers: Headers::new() }
    }

    /// 301 Moved Permanently.
    pub fn permanent(location: &str) -> (r: Redirect)
        ensures
            r@ == fresh_redirect(301, location@),
    {
        Redirect::status(301, location)
    }

    /// 302 Found.
    pub fn found(location: &str) -> (r: Redirect)
        ensures
            r@ == fresh_redirect(302, location@),
    {
        Redirect::status(302, location)
    }

    /// 303 See Other.
    pub fn see_other(location: &str) -> (r: Redirect)
        ensures
            r@ == fresh_redirect(303, location@),
    {
        Redirect::status(303, location)
    }

    /// 307 Temporary Redirect.
    pub fn temporary(location: &str) -> (r: Redirect)
        ensures
            r@ == fresh_redirect(307, location@),
    {
        Redirect::status(307, location)
    }

    /// 308 Permanent Redirect.
    pub fn permanent_redirect(location: &str) -> (r: Redirect)
        ensures
            r@ == fresh_redirect(308, location@),
    {
        Redirect::status(308, location)
    }

    /// Adds a header; a name or value that the `http` crate rejects is
    /// ignored.
    pub fn header(self, key: &str, value: &str) -> (r: Redirect)
        ensures
            r@ == (RedirectView { headers: inserted(self@.headers, key@, value@), ..self@ }),
    {
        proof {
            use_type_invariant(&self);
        }
        let Redirect { code, location, headers } = self;
        let mut headers = headers;
        headers.insert(key, value);
        Redirect { code, location, headers }
    }

    /// The status code.
    pub fn code(&self) -> (r: u16)
        ensures
            r == self@.code,
            valid_status(r),
    {
        proof {
            use_type_invariant(self);
        }
        self.code
    }

    /// The target location.
    pub fn location(&self) -> (r: &String)
        ensures
            r@ == self@.location,
    {
        &self.location
    }

    /// The extra headers, in insertion order.
    pub fn headers(&self) -> (r: &Vec<(String, String)>)
        ensures
            r@.map_values(|e: (String, String)| (e.0@, e.1@)) == self@.headers,
    {
        self.headers.entries()
    }
}

} // verus!
