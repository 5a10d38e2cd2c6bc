//! The Greek language plugin.

use vstd::prelude::*;
use crate::text::text;

verus! {

/// The plugin's metadata type.
#[derive(Debug, Clone, Copy)]
pub struct PluginMetadataType;

/// The plugin's metadata.
pub const PLUGIN_METADATA: PluginMetadataType = PluginMetadataType;

/// The greeter of the plugin.
#[derive(Debug, Clone, Copy)]
pub struct Greek;

impl PluginMetadataType {
    /// The plugin's name.
    pub fn name(&self) -> (r: String)
        ensures
            r@ == "ελληνικά"@,
    {
        text("ελληνικά")
    }

    /// The plugin's greeter.
    pub fn get_instance(&self) -> (r: Greek)
        ensures
            r == Greek,
    {
        Greek
    }
}

impl Greek {
    /// The greeting in Greek.
    pub fn say_hello(&self) -> (r: String)
        ensures
            r@ == "Γεια σε όλους"@,
    {
        text("Γεια σε όλους")
    }
}

} // verus!
