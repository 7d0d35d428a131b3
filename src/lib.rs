//! A GPIO engine for the 40-pin header of a BCM283x/BCM2711 board: a register-level
//! pin driver, an action program with its store and a stepwise executor, and the
//! small text renderings that a web front end shows.

mod text;

pub mod errors;
pub mod pins;
pub mod gpio;
pub mod window;
pub mod actions;
pub mod executor;
pub mod config;
pub mod logger;
pub mod html;
