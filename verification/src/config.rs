//! What the user has configured.

use vstd::prelude::*;

verus! {

/// The user's configuration: the token by which the server knows the user.
#[derive(Clone, Debug, PartialEq, Eq)]
pub struct Config {
    pub token: String,
}

} // verus!
