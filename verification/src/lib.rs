//! Mail ingest over HTTP and relay over SMTP: who a request acts for, what
//! becomes of a message that comes in, and how a relay session is opened.
//!
//! Everything that decides is here, with its contract. Reading sockets, stores,
//! clocks and the environment is the caller's: a decision that needs them says
//! what to do, and goes on with what came of it.

pub mod address;
pub mod auth;
pub mod course;
pub mod errors;
pub mod hash;
pub mod headers;
pub mod ingest;
pub mod message;
pub mod relay;
pub mod relay_course;
pub mod session;
pub mod state;
pub mod text;
