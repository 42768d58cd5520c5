//! What the handlers of the service share.

use std::sync::Arc;
use vstd::prelude::*;
use crate::config::{Config, Settings};

verus! {

/// The state that every handler sees: the settings, loaded once.
#[derive(Clone)]
pub struct AppState {
    pub config: Arc<Config>,
}

impl AppState {
    /// The settings that the state holds.
    pub open spec fn settings(&self) -> Settings {
        (*self.config)@
    }

    /// A state that holds the given settings.
    pub fn new(config: Config) -> (state: Self)
        ensures
            state.settings() == config@,
    {
        AppState { config: Arc::new(config) }
    }

    /// The longest text, in bytes, that a request may carry.
    pub fn max_url_length(&self) -> (length: usize)
        ensures
            length == self.settings().max_url_length,
    {
        self.config.max_url_length
    }
}

} // verus!
