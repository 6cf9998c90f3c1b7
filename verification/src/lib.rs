//! Pine: the buffer-persistence core of a small text editor.
//!
//! The library owns the text being edited, tracks whether it has diverged
//! from durable storage, and performs the read-on-open / write-on-save
//! transitions, including the one-shot promotion of a binding from
//! "path assigned, file absent" to "file created and held open".

pub mod cli;
pub mod storage;
pub mod text_buffer;
