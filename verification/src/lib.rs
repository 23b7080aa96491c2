//! A terminal music player's core: play-state and playlist management, the
//! recent-directory list, argument checks, track listing formats, playlist file
//! names, search and the text layout of the track list.
use vstd::prelude::*;

pub mod app;
pub mod cli;
pub mod config;
pub mod error;
pub mod library;
pub mod models;
pub mod output;
pub mod pathname;
pub mod playlist;
pub mod ui;
pub mod text;
pub mod width;

verus! {
}
