//! The state that the host shares with the scene: the viewport awaiting
//! use, the keyboard, and the configuration.

use vstd::prelude::*;
use crate::keyboard::{Keyboard, KeyId};

verus! {

/// The size of the drawing surface, in pixels.
#[derive(Debug)]
pub struct Viewport {
    pub width: u32,
    pub height: u32,
}

/// What the host was configured with.
#[derive(Debug)]
pub struct Config {
    pub host: String,
}

impl Config {
    pub fn new(host: String) -> (config: Config)
        ensures
            config.host == host,
    {
        Config { host }
    }
}

/// The state that event handlers write and behaviours read.
#[derive(Debug)]
pub struct AppState {
    /// A new size of the drawing surface that has not been applied yet.
    pub viewport: Option<Viewport>,
    pub keyboard: Keyboard,
    pub config: Config,
}

impl AppState {
    /// The state before any event: no viewport awaiting, no key heard of,
    /// an empty host name.
    pub fn new() -> (state: AppState)
        ensures
            state.viewport is None,
            state.keyboard@ == Map::<KeyId, (bool, u8)>::empty(),
            state.config.host@ == Seq::<char>::empty(),
    {
        AppState { viewport: None, keyboard: Keyboard::new(), config: Config::new(String::new()) }
    }
}

} // verus!
