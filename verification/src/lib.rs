//! Core logic of a desktop overlay "pet" application.
//!
//! The overlay is a borderless always-on-top window that must coexist with
//! normal desktop interaction.  This crate holds the verifiable heart of
//! that application:
//!
//! - [`geometry`]: exact conversion between a monitor's raw (physical)
//!   pixel coordinates and the logical (scale-corrected) coordinates the
//!   UI layer expects;
//! - [`display`]: normalization of monitor enumerations and the startup
//!   window-placement policy;
//! - [`click_through`]: the state machine governing whether the operating
//!   system delivers pointer input to the overlay or passes it through;
//! - [`pointer`]: the per-event decision logic of the global pointer
//!   listener, including the ordered cursor-resolution chain;
//! - [`tray`]: routing of tray-menu selections to commands and events;
//! - [`events`]: the notifications published to the UI layer.
//!
//! All operating-system work (window mutation, monitor queries, the global
//! pointer hook) happens outside this crate; the functions here take the
//! raw values those calls produce and return the values and notifications
//! to hand back, so that every decision the application makes is verified.
pub mod geometry;
pub mod display;
pub mod events;
pub mod pointer;
pub mod click_through;
pub mod tray;
