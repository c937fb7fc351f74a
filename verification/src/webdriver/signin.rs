//! Deciding how signing in went.
use crate::text::{contains, ends_with, has_substring, has_suffix, same_text};
use vstd::prelude::*;

verus! {

/// Why signing in failed.
#[derive(Clone, Debug, PartialEq)]
pub enum Error {
    NoUsername,
    NoPassword,
    /// The account (named) does not exist.
    InvalidUsername(String),
    /// The password of the account (named) is wrong.
    InvalidPassword(String),
    ThereIsAnErrorForSomeReason,
}

/// The user name and password to sign in with, from the configured values: the user name
/// is checked first.
pub fn credentials(username: Option<String>, password: Option<String>) -> (r: Result<
    (String, String),
    Error,
>)
    ensures
        match (username, password) {
            (None, _) => r == Err::<(String, String), Error>(Error::NoUsername),
            (Some(_), None) => r == Err::<(String, String), Error>(Error::NoPassword),
            (Some(u), Some(p)) => r == Ok::<(String, String), Error>((u, p)),
        },
{
    match username {
        None => Err(Error::NoUsername),
        Some(u) => match password {
            None => Err(Error::NoPassword),
            Some(p) => Ok((u, p)),
        },
    }
}

/// The address of the course overview, where signing in leads.
pub open spec fn learn_url() -> Seq<char> {
    "https://www.duolingo.com/learn"@
}

/// Whether the browser is at the course overview.
pub fn is_learn_page(url: &str) -> (b: bool)
    ensures
        b == (url@ == learn_url()),
{
    same_text(url, "https://www.duolingo.com/learn")
}

/// How long signing in may take, in nanoseconds.
pub open spec fn login_timeout_nanos() -> u128 {
    20_000_000_000
}

/// Whether waiting for the sign-in has taken longer than allowed.
pub fn login_timed_out(elapsed_nanos: u128) -> (b: bool)
    ensures
        b == (elapsed_nanos > login_timeout_nanos()),
{
    elapsed_nanos > 20_000_000_000
}

/// Whether signing in succeeded: the address ends at the course overview.
pub fn login_succeeded(url: &str) -> (b: bool)
    ensures
        b == has_suffix(url@, "learn"@),
{
    ends_with(url, "learn")
}

/// The error that the sign-in form's message tells, for the account `username`.
pub open spec fn spec_login_failure(message: Seq<char>, username: String) -> Error {
    if has_substring(message, "Duolingo account"@) {
        Error::InvalidUsername(username)
    } else if has_substring(message, "password"@) {
        Error::InvalidPassword(username)
    } else {
        Error::ThereIsAnErrorForSomeReason
    }
}

pub fn login_failure(message: &str, username: String) -> (e: Error)
    ensures
        e == spec_login_failure(message@, username),
{
    if contains(message, "Duolingo account") {
        Error::InvalidUsername(username)
    } else if contains(message, "password") {
        Error::InvalidPassword(username)
    } else {
        Error::ThereIsAnErrorForSomeReason
    }
}

/// A sign-in failure message that speaks of the account blames the user name, one that
/// speaks only of the password blames the password, and any other message blames neither;
/// the account named in the error is the one that tried to sign in.
pub proof fn lemma_login_failures(message: Seq<char>, username: String)
    ensures
        has_substring(message, "Duolingo account"@) ==> spec_login_failure(message, username)
            == Error::InvalidUsername(username),
        !has_substring(message, "Duolingo account"@) && has_substring(message, "password"@)
            ==> spec_login_failure(message, username) == Error::InvalidPassword(username),
        !has_substring(message, "Duolingo account"@) && !has_substring(message, "password"@)
            ==> spec_login_failure(message, username) == Error::ThereIsAnErrorForSomeReason,
{
}

} // verus!
