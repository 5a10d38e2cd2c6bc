//! The English language plugin.

use vstd::prelude::*;
use crate::text::text;

verus! {

/// The plugin's metadata type.
#[derive(Debug, Clone, Copy)]
pub struct PluginMetadataType;

/// The plugin's metadata.
pub const PLUGIN_METADATA: PluginMetadataType = PluginMetadataType;

/// The greeter of the plugin.
#[derive(Debug, Clone, Copy)]
pub struct English;

impl PluginMetadataType {
    /// The plugin's name.
    pub fn name(&self) -> (r: String)
        ensures
            r@ == "English"@,
    {
        text("English")
    }

    /// The plugin's greeter.
    pub fn get_instance(&self) -> (r: English)
        ensures
            r == English,
    {
        English
    }
}

impl English {
    /// The greeting in English.
    pub fn say_hello(&self) -> (r: String)
        ensures
            r@ == "Hello World!"@,
    {
        text("Hello World!")
    }
}

} // verus!
