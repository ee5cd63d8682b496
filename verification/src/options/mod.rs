//! What a caller chooses before a run: the length category of the password.

pub mod options;
pub mod password_length;
