//! The decisions behind coloured window borders: which windows get a border, what colour it has,
//! how the configuration is read and reloaded, and how notifications from a tiling window manager
//! change what a border shows.
//!
//! Everything here works on plain values. Talking to the operating system is left to the program
//! around this library.
pub mod anim_timer;
pub mod auto_start;
pub mod bezier;
pub mod borders;
pub mod colors;
pub mod config;
pub mod errors;
pub mod float_bits;
pub mod handles;
pub mod iocp;
pub mod json;
pub mod komorebi;
pub mod laws;
pub mod same;
pub mod text;
pub mod utils;
pub mod watch;
pub mod window;
pub mod window_rules;
pub mod winsock;

