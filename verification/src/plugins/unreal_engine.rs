//! The Unreal Engine integration plugin.

use vstd::prelude::*;
use crate::plugin_manager::{plugin_api_version, PluginMetadata, Version};
use crate::text::text;

verus! {

/// The Unreal Engine integration plugin.
#[derive(Debug, Clone, Copy)]
pub struct UnrealEngine {}

impl UnrealEngine {
    /// A new plugin.
    pub fn new() -> (r: UnrealEngine)
        ensures
            r == (UnrealEngine {}),
    {
        UnrealEngine {  }
    }

    /// The plugin's name, as the plugin reports it.
    pub fn name(&self) -> (r: String)
        ensures
            r@ == "Stars Beyond"@,
    {
        text("Stars Beyond")
    }

    /// The plugin's greeting.
    pub fn say_hello(&self) -> (r: String)
        ensures
            r@ == "Ready for Unreal Engine Integration!"@,
    {
        text("Ready for Unreal Engine Integration!")
    }

    /// The plugin's greeter: a copy of the plugin.
    pub fn get_instance(&self) -> (r: UnrealEngine)
        ensures
            r == *self,
    {
        *self
    }

    /// The plugin that receives game events: a new plugin.
    pub fn get_plugin(&self) -> (r: UnrealEngine)
        ensures
            r == (UnrealEngine {}),
    {
        UnrealEngine::new()
    }
}

/// A new Unreal Engine plugin.
pub fn get_plugin() -> (r: UnrealEngine)
    ensures
        r == (UnrealEngine {}),
{
    UnrealEngine::new()
}

/// The plugin's metadata.
pub fn get_plugin_metadata() -> (r: PluginMetadata)
    ensures
        r.name@ == "Unreal Engine"@,
        r.version@ == "5.4.1"@,
        r.description@ == "A plugin for integrating with the Unreal game engine"@,
        r.api_version == (Version { major: 0, minor: 1, hotfix: 0 }),
{
    PluginMetadata::new(
        "Unreal Engine",
        "5.4.1",
        "A plugin for integrating with the Unreal game engine",
        plugin_api_version(),
    )
}

} // verus!
