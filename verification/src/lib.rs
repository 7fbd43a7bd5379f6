//! The verified core of oxutrm: a terminal session that outlives the network
//! it is watched over.

pub mod accept;
pub mod addr;
pub mod attach_exchange;
pub mod blink;
pub mod caps;
pub mod chooser;
pub mod cli;
pub mod connect;
pub mod emulator;
pub mod error;
pub mod grid;
pub mod host;
pub mod ladder;
pub mod link;
pub mod linkstate;
pub mod loopback;
pub mod palette;
pub mod pty;
pub mod rebuild;
pub mod roam;
pub mod screen;
pub mod serve;
pub mod signal;
pub mod signals;
pub mod text;
