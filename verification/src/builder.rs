//! Construction of the application handle.
use crate::App;
use vstd::prelude::*;

verus! {

/// Builds an [`App`].
pub struct AppBuilder {}

impl Default for AppBuilder {
    /// Creates a builder with the default configuration.
    fn default() -> (r: AppBuilder)
        ensures
            r == (AppBuilder {}),
    {
        AppBuilder {}
    }
}

impl AppBuilder {
    /// Builds the application.
    pub fn build(self) -> (r: App)
        ensures
            r == (App {}),
    {
        App {}
    }
}

} // verus!
