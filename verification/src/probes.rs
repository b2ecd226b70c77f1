//! Trusted probes into the process's environment.  Each function wraps one
//! outside lookup whose result depends on the machine, the process or the
//! clock, so nothing is promised of the value; the verified producers take
//! whatever comes back and are specified for every outcome.

use vstd::prelude::*;

use std::fmt::Write;

verus! {

/// Relies on users::get_current_uid: the calling process's real user id,
/// as the operating system reports it.
#[verifier::external_body]
pub(crate) fn current_uid() -> u32 {
    users::get_current_uid()
}

/// Relies on users::get_user_by_uid and users::User::name: the account name
/// for a user id, when the id resolves and the name is valid text.
#[verifier::external_body]
pub(crate) fn user_name_of(uid: u32) -> Option<String> {
    users::get_user_by_uid(uid).and_then(|u| u.name().to_str().map(|n| n.to_owned()))
}

/// Relies on hostname::get: the machine's hostname, when the lookup
/// succeeds and the name is valid text.
#[verifier::external_body]
pub(crate) fn query_hostname() -> Option<String> {
    match hostname::get() {
        Ok(h) => match h.to_str() {
            Some(s) => Some(s.to_owned()),
            None => None,
        },
        Err(_) => None,
    }
}

/// Relies on chrono's Local::now and DateTime::format: the current local
/// time rendered with the given strftime format; None when the format
/// string is not valid.
#[verifier::external_body]
pub(crate) fn format_local_time(format: &str) -> Option<String> {
    let mut s = String::new();
    match write!(s, "{}", chrono::Local::now().format(format)) {
        Ok(()) => Some(s),
        Err(_) => None,
    }
}

} // verus!
