//! The Horizon Core plugin.

use vstd::prelude::*;
use crate::text::text;

verus! {

/// The plugin's metadata type.
#[derive(Debug, Clone, Copy)]
pub struct PluginMetadataType;

/// The plugin's metadata.
pub const PLUGIN_METADATA: PluginMetadataType = PluginMetadataType;

/// The greeter of the plugin.
#[allow(non_camel_case_types)]
#[derive(Debug, Clone, Copy)]
pub struct Horizon_Core;

impl PluginMetadataType {
    /// The plugin's name.
    pub fn name(&self) -> (r: String)
        ensures
            r@ == "Horizon Core"@,
    {
        text("Horizon Core")
    }

    /// The plugin's greeter.
    pub fn get_instance(&self) -> (r: Horizon_Core)
        ensures
            r == Horizon_Core,
    {
        Horizon_Core
    }

    /// The plugin that receives game events: the metadata type itself.
    pub fn get_plugin(&self) -> (r: PluginMetadataType)
        ensures
            r == PluginMetadataType,
    {
        PluginMetadataType
    }
}

impl Horizon_Core {
    /// The core's greeting.
    pub fn say_hello(&self) -> (r: String)
        ensures
            r@ == "Hello World!"@,
    {
        text("Hello World!")
    }
}

} // verus!
