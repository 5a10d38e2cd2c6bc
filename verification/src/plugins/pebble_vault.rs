//! The PebbleVault spatial database plugin: its object data and metadata.

use vstd::prelude::*;
use crate::assoc::{find_name, named_map, put_named};
use crate::plugin_manager::{plugin_api_version, PluginMetadata, Version};
use crate::text::{concat, text};

verus! {

/// Custom data of a PebbleVault object.
#[derive(Debug, Clone, PartialEq, Eq)]
pub struct PebbleVaultCustomData {
    /// Name of the object
    pub name: String,
    /// Custom value associated with the object
    pub value: i32,
}

/// The data a player object gets when the player joins: named after the
/// player, with value 0.
pub fn player_custom_data(player_id: &str) -> (r: PebbleVaultCustomData)
    ensures
        r.name@ == "Player_"@ + player_id@,
        r.value == 0,
{
    PebbleVaultCustomData { name: concat("Player_", player_id), value: 0 }
}

/// The plugin's name.
pub fn plugin_name() -> (r: String)
    ensures
        r@ == "PebbleVault"@,
{
    text("PebbleVault")
}

/// The plugin's greeting.
pub fn say_hello() -> (r: String)
    ensures
        r@ == "Greetings from PebbleVault, your spatial database and object management system!"@,
{
    text("Greetings from PebbleVault, your spatial database and object management system!")
}

/// The plugin's metadata.
pub fn get_plugin_metadata() -> (r: PluginMetadata)
    ensures
        r.name@ == "PebbleVault"@,
        r.version@ == "1.0.0"@,
        r.description@ == "A spatial database and object management system for game worlds"@,
        r.api_version == (Version { major: 0, minor: 1, hotfix: 0 }),
{
    PluginMetadata::new(
        "PebbleVault",
        "1.0.0",
        "A spatial database and object management system for game worlds",
        plugin_api_version(),
    )
}

/// The remote calls of the PebbleVault plugin; each is answered by the
/// plugin's vault.
#[derive(Debug, Clone, Copy, PartialEq, Eq, Structural)]
pub enum VaultRpc {
    CreateOrLoadRegion,
    QueryRegion,
    AddObject,
    RemoveObject,
    GetObject,
    UpdateObject,
    TransferPlayer,
    PersistToDisk,
}

/// The name each remote call is registered under.
pub open spec fn vault_rpc_name(rpc: VaultRpc) -> Seq<char> {
    match rpc {
        VaultRpc::CreateOrLoadRegion => "create_or_load_region"@,
        VaultRpc::QueryRegion => "query_region"@,
        VaultRpc::AddObject => "add_object"@,
        VaultRpc::RemoveObject => "remove_object"@,
        VaultRpc::GetObject => "get_object"@,
        VaultRpc::UpdateObject => "update_object"@,
        VaultRpc::TransferPlayer => "transfer_player"@,
        VaultRpc::PersistToDisk => "persist_to_disk"@,
    }
}

/// What each remote call reports having failed to do.
pub open spec fn vault_rpc_action(rpc: VaultRpc) -> Seq<char> {
    match rpc {
        VaultRpc::CreateOrLoadRegion => "create or load region"@,
        VaultRpc::QueryRegion => "query region"@,
        VaultRpc::AddObject => "add object"@,
        VaultRpc::RemoveObject => "remove object"@,
        VaultRpc::GetObject => "get object"@,
        VaultRpc::UpdateObject => "update object"@,
        VaultRpc::TransferPlayer => "transfer player"@,
        VaultRpc::PersistToDisk => "persist to disk"@,
    }
}

/// The remote calls a new plugin has registered: all eight, each under its
/// name.
pub open spec fn vault_rpc_table() -> Map<Seq<char>, VaultRpc> {
    Map::empty()
        .insert("create_or_load_region"@, VaultRpc::CreateOrLoadRegion)
        .insert("query_region"@, VaultRpc::QueryRegion)
        .insert("add_object"@, VaultRpc::AddObject)
        .insert("remove_object"@, VaultRpc::RemoveObject)
        .insert("get_object"@, VaultRpc::GetObject)
        .insert("update_object"@, VaultRpc::UpdateObject)
        .insert("transfer_player"@, VaultRpc::TransferPlayer)
        .insert("persist_to_disk"@, VaultRpc::PersistToDisk)
}

/// The PebbleVault plugin: its identity and the remote calls it answers.
#[derive(Debug)]
pub struct PebbleVaultPlugin {
    id: u128,
    name: String,
    rpc_functions: Vec<(String, VaultRpc)>,
}

impl PebbleVaultPlugin {
    /// The plugin's identifier.
    pub closed spec fn spec_id(&self) -> u128 {
        self.id
    }

    /// The plugin's name.
    pub closed spec fn spec_name(&self) -> Seq<char> {
        self.name@
    }

    /// The registered remote calls, by name.
    pub closed spec fn rpc_table(&self) -> Map<Seq<char>, VaultRpc> {
        named_map(self.rpc_functions@)
    }

    /// A plugin named "PebbleVault" with a fresh random (version 4)
    /// identifier and its eight remote calls registered.
    pub fn new() -> (r: PebbleVaultPlugin)
        ensures
            r.spec_name() == "PebbleVault"@,
            r.rpc_table() == vault_rpc_table(),
            (r.spec_id() >> 76u128) & 0xfu128 == 4,
            (r.spec_id() >> 62u128) & 0x3u128 == 2,
    {
        let mut plugin = PebbleVaultPlugin {
            id: crate::ids::new_v4_value(),
            name: text("PebbleVault"),
            rpc_functions: Vec::new(),
        };
        assert(plugin.rpc_table() =~= Map::<Seq<char>, VaultRpc>::empty());
        plugin.register_rpc("create_or_load_region", VaultRpc::CreateOrLoadRegion);
        plugin.register_rpc("query_region", VaultRpc::QueryRegion);
        plugin.register_rpc("add_object", VaultRpc::AddObject);
        plugin.register_rpc("remove_object", VaultRpc::RemoveObject);
        plugin.register_rpc("get_object", VaultRpc::GetObject);
        plugin.register_rpc("update_object", VaultRpc::UpdateObject);
        plugin.register_rpc("transfer_player", VaultRpc::TransferPlayer);
        plugin.register_rpc("persist_to_disk", VaultRpc::PersistToDisk);
        plugin
    }

    /// Registers the remote call `rpc` under `name`, replacing a call of
    /// that name.
    pub fn register_rpc(&mut self, name: &str, rpc: VaultRpc)
        ensures
            final(self).rpc_table() == old(self).rpc_table().insert(name@, rpc),
            final(self).spec_id() == old(self).spec_id(),
            final(self).spec_name() == old(self).spec_name(),
    {
        put_named(&mut self.rpc_functions, name, rpc);
    }

    /// The remote call registered under `rpc_name`; `None` when no call has
    /// that name.
    pub fn call_rpc(&self, rpc_name: &str) -> (r: Option<VaultRpc>)
        ensures
            r is Some <==> self.rpc_table().contains_key(rpc_name@),
            r matches Some(rpc) ==> rpc == self.rpc_table()[rpc_name@],
    {
        match find_name(&self.rpc_functions, rpc_name) {
            Some(i) => Some(self.rpc_functions[i].1),
            None => None,
        }
    }

    /// The plugin's identifier.
    pub fn get_id(&self) -> (r: u128)
        ensures
            r == self.spec_id(),
    {
        self.id
    }

    /// The plugin's name.
    pub fn get_name(&self) -> (r: String)
        ensures
            r@ == self.spec_name(),
    {
        self.name.clone()
    }
}

/// A new PebbleVault plugin.
pub fn get_plugin() -> (r: PebbleVaultPlugin)
    ensures
        r.spec_name() == "PebbleVault"@,
        r.rpc_table() == vault_rpc_table(),
        (r.spec_id() >> 76u128) & 0xfu128 == 4,
        (r.spec_id() >> 62u128) & 0x3u128 == 2,
{
    PebbleVaultPlugin::new()
}

/// The report of a remote call whose vault operation failed with `error`.
pub fn failure_message(rpc: VaultRpc, error: &str) -> (r: String)
    ensures
        r@ == "Failed to "@ + vault_rpc_action(rpc) + ": "@ + error@,
{
    let action = match rpc {
        VaultRpc::CreateOrLoadRegion => "Failed to create or load region: ",
        VaultRpc::QueryRegion => "Failed to query region: ",
        VaultRpc::AddObject => "Failed to add object: ",
        VaultRpc::RemoveObject => "Failed to remove object: ",
        VaultRpc::GetObject => "Failed to get object: ",
        VaultRpc::UpdateObject => "Failed to update object: ",
        VaultRpc::TransferPlayer => "Failed to transfer player: ",
        VaultRpc::PersistToDisk => "Failed to persist to disk: ",
    };
    proof {
        reveal_strlit("Failed to ");
        reveal_strlit(": ");
        reveal_strlit("create or load region");
        reveal_strlit("Failed to create or load region: ");
        reveal_strlit("query region");
        reveal_strlit("Failed to query region: ");
        reveal_strlit("add object");
        reveal_strlit("Failed to add object: ");
        reveal_strlit("remove object");
        reveal_strlit("Failed to remove object: ");
        reveal_strlit("get object");
        reveal_strlit("Failed to get object: ");
        reveal_strlit("update object");
        reveal_strlit("Failed to update object: ");
        reveal_strlit("transfer player");
        reveal_strlit("Failed to transfer player: ");
        reveal_strlit("persist to disk");
        reveal_strlit("Failed to persist to disk: ");
        assert(action@ =~= "Failed to "@ + vault_rpc_action(rpc) + ": "@);
    }
    concat(action, error)
}

/// The report of a remote call handed parameters of the wrong shape. The
/// persisting call takes none, so it has no such report.
pub fn invalid_parameters_message(rpc: VaultRpc) -> (r: String)
    requires
        rpc != VaultRpc::PersistToDisk,
    ensures
        r@ == "Invalid parameters for "@ + vault_rpc_name(rpc),
{
    let name = match rpc {
        VaultRpc::CreateOrLoadRegion => "create_or_load_region",
        VaultRpc::QueryRegion => "query_region",
        VaultRpc::AddObject => "add_object",
        VaultRpc::RemoveObject => "remove_object",
        VaultRpc::GetObject => "get_object",
        VaultRpc::UpdateObject => "update_object",
        VaultRpc::TransferPlayer => "transfer_player",
        VaultRpc::PersistToDisk => "persist_to_disk",
    };
    concat("Invalid parameters for ", name)
}

} // verus!
