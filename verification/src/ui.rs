//! The input models of the screens and popups: what the user has typed so
//! far and which field or button has the focus. Drawing them and reading
//! the keyboard is left to the program that hosts the engine.

pub mod components;
pub mod home;
pub mod keys;
pub mod login;
pub mod popups;
pub mod register;
pub mod startup;
