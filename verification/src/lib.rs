//! Headless playback coordination for Retrovert decoder plugins.
//!
//! - [`player`] keeps the decoder set, the index of [`extensions`] over it,
//!   and at most one session.
//! - [`catalog`] keeps that set current against an update channel, as
//!   [`config`] says: it decides which [`generation`] is loaded, makes its
//!   [`payload`] loadable, and keeps a [`record`] of what happened.
//! - [`desktop`] is the desktop player around both: its command line, its
//!   commands and its audio worker.
//! - [`laws`] states what holds over any number of calls.
//!
//! Everything here computes. What touches the disk, the network, the device
//! or a plugin is the host's, which is told what to do as a step and hands
//! back what came of it; a [`tree`] path names a place for it, and [`text`]
//! is how it is spoken to.

pub mod catalog;
pub mod config;
pub mod desktop;
pub mod extensions;
pub mod generation;
pub mod laws;
pub mod payload;
pub mod player;
pub mod record;
pub mod text;
pub mod tree;
