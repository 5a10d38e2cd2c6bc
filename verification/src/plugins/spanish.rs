//! The Spanish language plugin.

use vstd::prelude::*;
use crate::text::text;

verus! {

/// The plugin's metadata type.
#[derive(Debug, Clone, Copy)]
pub struct PluginMetadataType;

/// The plugin's metadata.
pub const PLUGIN_METADATA: PluginMetadataType = PluginMetadataType;

/// The greeter of the plugin.
#[derive(Debug, Clone, Copy)]
pub struct Spanish;

impl PluginMetadataType {
    /// The plugin's name.
    pub fn name(&self) -> (r: String)
        ensures
            r@ == "español"@,
    {
        text("español")
    }

    /// The plugin's greeter.
    pub fn get_instance(&self) -> (r: Spanish)
        ensures
            r == Spanish,
    {
        Spanish
    }
}

impl Spanish {
    /// The greeting in Spanish.
    pub fn say_hello(&self) -> (r: String)
        ensures
            r@ == "¡Hola a todos!"@,
    {
        text("¡Hola a todos!")
    }
}

} // verus!
