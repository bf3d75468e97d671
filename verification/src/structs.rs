//! The bodies of requests and responses.

use crate::rows::{decimal, decimal_text};
use vstd::prelude::*;
use vstd::string::*;

verus! {

/// The request for a new short link.
pub struct CreateShortUrl {
    pub url: String,
}

/// The answer to it: the allocated code.
pub struct ShortUrlCreated {
    pub id: String,
}

/// The request for a new account.
pub struct Signup {
    pub email: String,
    pub password: String,
}

/// The request for a session.
pub struct Login {
    pub email: String,
    pub password: String,
}

/// The request for the click counts of the caller's links.
pub struct MetricsRequest {
    pub measuring_interval_minutes: u8,
}

impl MetricsRequest {
    /// The width of the time buckets, as the analytics store reads it: the
    /// number of minutes in decimal, a space, and the word `minutes`.
    pub fn interval(&self) -> (text: String)
        ensures
            text@ == decimal(self.measuring_interval_minutes as nat) + " minutes"@,
    {
        let mut text: String = decimal_text(self.measuring_interval_minutes as u32);
        text.append(" minutes");
        text
    }
}

} // verus!
