//! Backend core of a desktop assistant: the connection manager that keeps a
//! duplex session to the local speech server alive, and the small pieces of
//! decision logic around settings, chat, logs and audio levels.
//!
//! Everything here is plain computation. The event loops, the sockets, the
//! files and the UI live in the application around this library, which feeds
//! the state machines below with what happened and performs what they answer.

pub mod audio;
pub mod chat;
pub mod connection;
pub mod lemmas;
pub mod models;
pub mod registration;
pub mod service;
pub mod storage;
pub mod supervisor;
