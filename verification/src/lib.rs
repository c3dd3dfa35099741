//! Core of a terminal chat client: display-width accounting, editable text
//! buffers (single-line and multi-line) with a cursor tracked in characters
//! and in terminal cells, greedy soft-wrapping, and a virtual scrolling
//! compositor that windows a tall composed surface onto a bounded screen.

pub mod width;
pub mod wrap;
pub mod text_field;
pub mod text_area;
pub mod chat;
pub mod chat_list;
pub mod surface;
pub mod api;
pub mod ui;
