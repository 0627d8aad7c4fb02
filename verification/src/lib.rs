//! The decision-making core of a terminal market dashboard.
//!
//! Everything here is a function from plain values to plain values with a
//! machine-checked contract: the watchlist and its cursor, the three-mode
//! input state machine, the normalisation of upstream records, the
//! credential cache and the description of a frame to paint.

pub mod app;
pub mod config;
pub mod credential;
pub mod decimal;
pub mod error;
pub mod event;
pub mod market;
pub mod network;
pub mod search;
pub mod text;
pub mod ui;
pub mod waybar;
pub mod weather;
