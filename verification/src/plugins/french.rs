//! The French language plugin.

use vstd::prelude::*;
use crate::text::text;

verus! {

/// The plugin's metadata type.
#[derive(Debug, Clone, Copy)]
pub struct PluginMetadataType;

/// The plugin's metadata.
pub const PLUGIN_METADATA: PluginMetadataType = PluginMetadataType;

/// The greeter of the plugin.
#[derive(Debug, Clone, Copy)]
pub struct French;

impl PluginMetadataType {
    /// The plugin's name.
    pub fn name(&self) -> (r: String)
        ensures
            r@ == "français"@,
    {
        text("français")
    }

    /// The plugin's greeter.
    pub fn get_instance(&self) -> (r: French)
        ensures
            r == French,
    {
        French
    }
}

impl French {
    /// The greeting in French.
    pub fn say_hello(&self) -> (r: String)
        ensures
            r@ == "Bonjour, tout le monde"@,
    {
        text("Bonjour, tout le monde")
    }
}

} // verus!
