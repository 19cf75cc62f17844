//! Core of a small chat client: the session state, the reducer that reacts
//! to user and network events, and the renderer that splits a fetched
//! message blob into displayable fragments.  The surrounding user interface
//! lives outside this crate and only feeds events in and carries requests
//! out.

pub mod render;
pub mod state;
