//! The verified core of a small desktop chat-login shell: obscuring a stored
//! credential, the life cycle of the login handle, the persisted settings
//! record, and the application state that the redraw loop drives.

pub mod app;
pub mod login;
pub mod obscurer;
pub mod settings;
