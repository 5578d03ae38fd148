//! The core of a terminal dashboard over a small list of pet records:
//! which record is highlighted, how the list grows and shrinks, when the
//! input source ticks, and what each key press does. Terminals, files and
//! JSON stay with the application; everything here works on plain values.

pub mod clock;
pub mod dispatch;
pub mod error;
pub mod input;
pub mod pet;
pub mod random;
pub mod selection;
pub mod store;
pub mod view;

pub use crate::error::Error;
