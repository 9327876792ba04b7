//! Server-side page views: admission to protected pages, the login decision
//! flow, the publication of compiled template sets and the pages rendered
//! from them.
pub mod gate;
pub mod login;
pub mod reloader;
pub mod templates;
