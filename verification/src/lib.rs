//! Issuing and checking short-lived numeric verification codes bound to a
//! phone number, with bounded retry attempts and a cooldown window.
pub mod attempts;
pub mod laws;
