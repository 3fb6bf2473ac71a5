//! A password assistant: picks a password style and length, draws a
//! suggestion that fits them, and rates its strength.
//!
//! The verified core is the policy resolution (`policy`), the generation
//! contract (`engine`), the strength report (`analyzer`) and the two
//! form state machines (`main_window`, `app`) that decide, on each user
//! event, what is generated, what is scored and what goes to the clipboard.

pub mod analyzer;
pub mod app;
pub mod engine;
pub mod main_window;
pub mod policy;

pub use policy::{
    GenerationSpec, PasswordLevel, PasswordPolicyKind, DEFAULT_LENGTH, MAX_LENGTH, MIN_LENGTH,
};
pub use engine::{generate, suggest, GenerationError};
pub use analyzer::{analyze, StrengthReport};
pub use main_window::{Form, FormMessage};
pub use app::{App, AppMsg};
