//! A personal portfolio site: the static home page content, a contact form
//! whose submissions are kept in a message store, and a dashboard of those
//! messages behind an administrator login.
//!
//! This crate holds the site's rules; HTTP, templates and the clock live in
//! the application around it.

pub mod contact;
pub mod laws;
pub mod portfolio;
pub mod session;
pub mod site;
pub mod store;
