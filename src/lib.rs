//! Observes low-level keyboard input: the key-code table, the classification of
//! raw keyboard messages into events, and the bookkeeping of the installed hook.
pub mod event;
pub mod hook;
pub mod keycode;

pub use event::{convert, plan_callback, CallbackStep, Event, HookError, ListenError};
pub use hook::HookManager;
pub use keycode::{code_from_key, key_from_code};
