//! The rules of ScreenGuard, a screen-time manager: what an agent does when
//! sessions come and go and when its server speaks to it, what the server
//! stores and reads, and how the server answers its administrators.
//!
//! Nothing here performs I/O. Each function takes what has been read and
//! returns what is to be done, and its contract says exactly what that is.

pub mod agent;
pub mod api;
pub mod clock;
pub mod clock_laws;
pub mod db;
pub mod id_laws;
pub mod ids;
mod lists;
pub mod text;
pub mod text_laws;
