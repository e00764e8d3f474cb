//! The per-user data directory of the platform.
use vstd::prelude::*;

verus! {

/// Relies on `dirs::data_dir`: the user's data directory, read from the
/// environment, given as text (lossily, where the path is not valid UTF-8).
/// It depends on the machine and the environment, so nothing is promised of it.
#[verifier::external_body]
pub(crate) fn user_data_dir() -> (r: Option<String>) {
    match dirs::data_dir() {
        Some(p) => Some(p.to_string_lossy().into_owned()),
        None => None,
    }
}

} // verus!
