//! The verified core of a small portfolio site.
//!
//! The piece that carries weight is the sliding-window rate limiter in front
//! of the contact form: [`window`] is one client's window, [`limiter`] the
//! limiter over all clients, [`laws`] what is proved of both, and [`clock`]
//! the wall clock that the limiter reads. Beside it stand the contact mail as
//! plain data ([`mail`]), the status that answers a submission ([`contact`])
//! and the Handlebars setup of the template pages ([`hbs`]).

pub mod clock;
pub mod contact;
pub mod hbs;
pub mod laws;
pub mod limiter;
pub mod mail;
pub mod window;
