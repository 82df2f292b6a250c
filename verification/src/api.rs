//! How the server answers its administrators.
//!
//! A request is answered in steps. Each function takes the request and what has
//! been read or stored for it so far, and says what is to be read or stored
//! next, or what the answer is.

pub mod answer_laws;
pub mod auth;
pub mod reply;
pub mod route_laws;
pub mod routes;
pub mod secrets;
pub mod users;
