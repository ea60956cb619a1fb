//! Client logic of a small chat front end for Spacebar/Discord-compatible
//! servers: the application state machine, and the description of what each
//! screen shows. Rendering, networking and the gateway connection live in the
//! binary that drives this library.

pub mod message;
pub mod client;
pub mod chat;
pub mod login;
pub mod main_view;
pub mod laws;
