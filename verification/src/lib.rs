//! DeepChat Desktop: the decisions behind a desktop shell for chat.deepseek.com.
//!
//! The crate holds what the shell decides and computes; windows, files, the
//! Keychain and the network belong to the program around it, which hands plain
//! values in and carries out what comes back.

pub mod cipher;
pub mod cookies;
pub mod failure;
pub mod json;
pub mod laws;
pub mod links;
pub mod origin;
pub mod page_url;
pub mod platform;
pub mod session;
pub mod shell;
pub mod text;
