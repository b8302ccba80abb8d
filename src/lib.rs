//! Core of a terminal user-interface toolkit: a canonical event model,
//! translation of raw terminal input into it, and the size negotiation and
//! event routing of composable views stacked in layers.

pub mod vec;
pub mod event;
pub mod curses;
pub mod stream;
pub mod view;
pub mod position;
pub mod shadow_view;
pub mod stack_view;
