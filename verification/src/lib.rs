//! Session logic of a terminal tool that looks books up on the Babelio
//! catalogue: the three-mode key handling, the extraction of result records
//! from a fetched page, list selection and the clipboard export text.
//!
//! Everything here works on plain values. Reading keys, drawing frames,
//! sending the request and writing the clipboard are left to the caller, who
//! hands in key events and response bodies and carries out the [`app::Action`]
//! that comes back.

pub mod app;
pub mod book;
pub mod book_list;
pub mod decode;
pub mod fetch;
pub mod keys;
pub mod laws;
pub mod matcher;
pub mod request;
pub mod screen;
pub mod text;
