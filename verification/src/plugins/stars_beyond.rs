//! The Stars Beyond space exploration plugin, which carries a RecipeSmith.

use vstd::prelude::*;
use crate::plugin_manager::{plugin_api_version, PluginMetadata, Version};
use crate::inventory::PlayerInventory;
use crate::recipe::RecipeView;
use crate::recipe_smith::{default_rpc_table, RecipeSmith};
use crate::text::{concat, text};

verus! {

/// The greeting that precedes RecipeSmith's own.
pub open spec fn stars_beyond_greeting() -> Seq<char> {
    "Calculating shortest path to universal domination... ETA: 42 millennia. Warning: Excessive galactic conquest may lead to space papercuts. Pack bandages accordingly. "@
}

/// The Stars Beyond plugin.
#[derive(Debug)]
pub struct StarsBeyond {
    pub recipe_smith: RecipeSmith,
}

impl StarsBeyond {
    /// A new plugin with a new RecipeSmith.
    pub fn new() -> (r: StarsBeyond)
        ensures
            r.recipe_smith.wf(),
            r.recipe_smith.rpc_table() == default_rpc_table(),
            r.recipe_smith.book().recipes == Map::<Seq<char>, RecipeView>::empty(),
            r.recipe_smith.book().crafters == Map::<Seq<char>, Seq<Seq<char>>>::empty(),
            r.recipe_smith.inventories() == Map::<Seq<char>, PlayerInventory>::empty(),
            !r.recipe_smith.spec_initialized(),
            r.recipe_smith.spec_name() == "RecipeSmith"@,
            (r.recipe_smith.spec_id() >> 76u128) & 0xfu128 == 4,
            (r.recipe_smith.spec_id() >> 62u128) & 0x3u128 == 2,
    {
        StarsBeyond { recipe_smith: RecipeSmith::new() }
    }

    /// The plugin's name.
    pub fn name(&self) -> (r: String)
        ensures
            r@ == "Stars Beyond"@,
    {
        text("Stars Beyond")
    }

    /// The plugin's greeting, followed by RecipeSmith's.
    pub fn say_hello(&self) -> (r: String)
        ensures
            r@ == stars_beyond_greeting() + "Hello from RecipeSmith! Ready to craft some amazing items?"@,
    {
        let own = self.recipe_smith.say_hello();
        concat(
            "Calculating shortest path to universal domination... ETA: 42 millennia. Warning: Excessive galactic conquest may lead to space papercuts. Pack bandages accordingly. ",
            own.as_str(),
        )
    }
}

/// A new Stars Beyond plugin.
pub fn get_plugin() -> (r: StarsBeyond)
    ensures
        r.recipe_smith.wf(),
        r.recipe_smith.rpc_table() == default_rpc_table(),
        r.recipe_smith.book().recipes == Map::<Seq<char>, RecipeView>::empty(),
        r.recipe_smith.book().crafters == Map::<Seq<char>, Seq<Seq<char>>>::empty(),
        r.recipe_smith.inventories() == Map::<Seq<char>, PlayerInventory>::empty(),
        !r.recipe_smith.spec_initialized(),
        r.recipe_smith.spec_name() == "RecipeSmith"@,
        (r.recipe_smith.spec_id() >> 76u128) & 0xfu128 == 4,
        (r.recipe_smith.spec_id() >> 62u128) & 0x3u128 == 2,
{
    StarsBeyond::new()
}

/// The plugin's metadata.
pub fn get_plugin_metadata() -> (r: PluginMetadata)
    ensures
        r.name@ == "Stars Beyond"@,
        r.version@ == "1.0.0"@,
        r.description@ == "A plugin for space exploration and cosmic adventures, with integrated crafting system"@,
        r.api_version == (Version { major: 0, minor: 1, hotfix: 0 }),
{
    PluginMetadata::new(
        "Stars Beyond",
        "1.0.0",
        "A plugin for space exploration and cosmic adventures, with integrated crafting system",
        plugin_api_version(),
    )
}

} // verus!
