//! What the library promises as a whole, over all inputs.
//!
//! A law here does not say how something is computed. It says what comes out for inputs that are
//! built up from their parts, what two calls have to do with each other, or which results are the
//! only ones possible.
pub mod borders;
pub mod colors;
pub mod config;
pub mod errors;
pub mod komorebi;
pub mod sockets;
pub mod text;
pub mod window;
pub mod window_rules;
