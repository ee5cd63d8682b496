//! The options of one invocation.

use crate::options::password_length::PasswordLength;
use vstd::prelude::*;

verus! {

/// The choices that one invocation is run with.
#[derive(Debug)]
pub struct Options {
    /// The length category of the password.
    pub length: PasswordLength,
}

impl Default for Options {
    /// The options of an invocation that chooses nothing: a password of
    /// regular length.
    fn default() -> (options: Self)
        ensures
            options.length == PasswordLength::Regular,
    {
        Options { length: PasswordLength::Regular }
    }
}

} // verus!
