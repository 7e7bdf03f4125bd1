//! The structure of each control.
pub mod command_button;
pub mod user_form;
