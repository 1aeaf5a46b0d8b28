//! An idle-timeout watchdog for a web service: a shared activity clock that
//! every request writes, an interceptor that records activity before each
//! handler runs, and a monitor that decides when the service has been idle
//! for too long; plus the service's settings and stored-record models.
pub mod auth;
pub mod clock;
pub mod interceptor;
pub mod models;
pub mod monitor;
pub mod settings;
mod text;
