//! The RecipeSmith crafting plugin: recipes, player inventories, storage
//! containers and the remote calls that reach them.

use vstd::prelude::*;
use vstd::multiset::Multiset;
use crate::assoc::{
    assoc_map, first_match, lemma_absent, lemma_first_index, lemma_first_index_is, lemma_push_new,
    lemma_update_first,
};
use crate::inventory::{item_views, Item, ItemView, PlayerInventory, StorageContainer};
use crate::recipe::{Crafter, Recipe, RecipeView};
use crate::recipe_book::{book_after_add, recipe_views, recipes_for_crafter, RecipeBook, RecipeBookView};
use crate::text::text;

verus! {

/// The key of a player-inventory entry: the player's id.
pub open spec fn player_key() -> spec_fn((String, PlayerInventory)) -> Seq<char> {
    |e: (String, PlayerInventory)| e.0@
}

/// The value of a player-inventory entry: the inventory.
pub open spec fn player_val() -> spec_fn((String, PlayerInventory)) -> PlayerInventory {
    |e: (String, PlayerInventory)| e.1
}

/// Some slot holds an item named `name`.
pub open spec fn holds_named(inv: Map<u32, Option<ItemView>>, name: Seq<char>) -> bool {
    exists|s: u32| #[trigger] inv.contains_key(s) && inv[s] is Some && inv[s]->0.name == name
}

/// The crafting plugin.
#[derive(Debug)]
pub struct RecipeSmith {
    id: u128,
    name: String,
    initialized: bool,
    recipe_book: RecipeBook,
    player_inventories: Vec<(String, PlayerInventory)>,
    rpc_functions: Vec<(String, RpcKind)>,
}

/// Which remote call a registered name stands for.
#[derive(Debug, Clone, Copy, PartialEq, Eq, Structural)]
pub enum RpcKind {
    CreatePlayerInventory,
    GetPlayerInventory,
    UpdatePlayerInventory,
    CraftItem,
    GetAllRecipes,
    AddNewRecipe,
    GetRecipesByCrafter,
    GetPlayerInventoryContents,
    AddItemToPlayerInventory,
    RemoveItemFromPlayerInventory,
    CreateStorageContainer,
    AccessStorageContainer,
    TransferItem,
}

} // verus!

verus! {

/// The parameters of a remote call, by shape.
#[derive(Debug)]
pub enum RpcParams {
    Nothing,
    Text(String),
    TextCount(String, u32),
    TextText(String, String),
    TextInventory(String, PlayerInventory),
    TextItem(String, Item),
    Recipe(Recipe),
    Count(u32),
    ContainerText(StorageContainer, String),
    Transfer(PlayerInventory, PlayerInventory, String),
}

/// The reply of a remote call, by shape.
#[derive(Debug)]
pub enum RpcReply {
    Unit,
    Inventory(PlayerInventory),
    MaybeInventory(Option<PlayerInventory>),
    Flag(bool),
    MaybeText(Option<String>),
    Recipes(Vec<Recipe>),
    MaybeItems(Option<Vec<Item>>),
    Outcome(Result<(), String>),
    Container(StorageContainer),
}

/// The slots `0 .. n`, all empty.
pub open spec fn empty_slots(n: u32) -> Map<u32, Option<ItemView>> {
    Map::new(|s: u32| s < n, |s: u32| None::<ItemView>)
}

/// A well-formed inventory with the slots `0 .. n`, all empty.
pub open spec fn fresh_inventory(inv: PlayerInventory, n: u32) -> bool {
    &&& inv.wf()
    &&& inv@ == empty_slots(n)
    &&& inv.contents() == Multiset::<ItemView>::empty()
}

/// A container with a version-4 identifier and `n` empty slots.
pub open spec fn fresh_container(c: StorageContainer, n: u32) -> bool {
    &&& fresh_inventory(c.inventory, n)
    &&& (c.uuid >> 76u128) & 0xfu128 == 4
    &&& (c.uuid >> 62u128) & 0x3u128 == 2
}

/// The reply is `Ok(())` when `ok`, else the error "Invalid parameters".
pub open spec fn outcome_reply(ok: bool, reply: RpcReply) -> bool {
    if ok {
        reply matches RpcReply::Outcome(Ok(()))
    } else {
        reply matches RpcReply::Outcome(Err(e)) && e@ == "Invalid parameters"@
    }
}

/// What the remote call `kind` answers to `params`.
pub open spec fn replies(kind: RpcKind, params: RpcParams, reply: RpcReply) -> bool {
    match kind {
        RpcKind::CreatePlayerInventory => match params {
            RpcParams::TextCount(_, n) => reply matches RpcReply::Inventory(inv) && fresh_inventory(inv, n),
            _ => reply is Unit,
        },
        RpcKind::GetPlayerInventory => match params {
            RpcParams::Text(_) => reply matches RpcReply::Inventory(inv) && fresh_inventory(inv, 20),
            _ => reply matches RpcReply::MaybeInventory(None),
        },
        RpcKind::UpdatePlayerInventory => reply matches RpcReply::Flag(b) && b == (params is TextInventory),
        RpcKind::CraftItem => match params {
            RpcParams::TextText(_, _) => reply matches RpcReply::MaybeText(Some(t)) && t@ == "Crafted Item"@,
            _ => reply matches RpcReply::MaybeText(None),
        },
        RpcKind::GetAllRecipes => reply matches RpcReply::Recipes(v) && v.len() == 0,
        RpcKind::AddNewRecipe => reply matches RpcReply::Flag(b) && b == (params is Recipe),
        RpcKind::GetRecipesByCrafter => reply matches RpcReply::Recipes(v) && v.len() == 0,
        RpcKind::GetPlayerInventoryContents => match params {
            RpcParams::Text(_) => reply matches RpcReply::MaybeItems(Some(v)) && v.len() == 0,
            _ => reply matches RpcReply::MaybeItems(None),
        },
        RpcKind::AddItemToPlayerInventory => outcome_reply(params is TextItem, reply),
        RpcKind::RemoveItemFromPlayerInventory => outcome_reply(params is TextText, reply),
        RpcKind::CreateStorageContainer => match params {
            RpcParams::Count(n) => reply matches RpcReply::Container(c) && fresh_container(c, n),
            _ => reply matches RpcReply::Container(c) && fresh_container(c, 0),
        },
        RpcKind::AccessStorageContainer => reply is Unit,
        RpcKind::TransferItem => outcome_reply(params is Transfer, reply),
    }
}

fn invalid_parameters() -> (r: RpcReply)
    ensures
        outcome_reply(false, r),
{
    RpcReply::Outcome(Err(text("Invalid parameters")))
}

/// A new inventory for a player: `(player, slots)` gives `slots` empty slots.
pub fn create_player_inventory_rpc(params: &RpcParams) -> (r: RpcReply)
    ensures
        replies(RpcKind::CreatePlayerInventory, *params, r),
{
    match params {
        RpcParams::TextCount(_, num_slots) => RpcReply::Inventory(PlayerInventory::new(*num_slots)),
        _ => RpcReply::Unit,
    }
}

/// A player's inventory: for a player id, a new inventory of 20 empty slots.
pub fn get_player_inventory_rpc(params: &RpcParams) -> (r: RpcReply)
    ensures
        replies(RpcKind::GetPlayerInventory, *params, r),
{
    match params {
        RpcParams::Text(_) => RpcReply::Inventory(PlayerInventory::new(20)),
        _ => RpcReply::MaybeInventory(None),
    }
}

/// Accepts `(player, inventory)`.
pub fn update_player_inventory_rpc(params: &RpcParams) -> (r: RpcReply)
    ensures
        replies(RpcKind::UpdatePlayerInventory, *params, r),
{
    match params {
        RpcParams::TextInventory(_, _) => RpcReply::Flag(true),
        _ => RpcReply::Flag(false),
    }
}

/// Crafting by remote call: `(player, recipe)` yields "Crafted Item".
pub fn craft_item_rpc(params: &RpcParams) -> (r: RpcReply)
    ensures
        replies(RpcKind::CraftItem, *params, r),
{
    match params {
        RpcParams::TextText(_, _) => RpcReply::MaybeText(Some(text("Crafted Item"))),
        _ => RpcReply::MaybeText(None),
    }
}

/// All recipes by remote call: an empty list.
pub fn get_all_recipes_rpc(params: &RpcParams) -> (r: RpcReply)
    ensures
        replies(RpcKind::GetAllRecipes, *params, r),
{
    RpcReply::Recipes(Vec::new())
}

/// Accepts a recipe.
pub fn add_new_recipe_rpc(params: &RpcParams) -> (r: RpcReply)
    ensures
        replies(RpcKind::AddNewRecipe, *params, r),
{
    match params {
        RpcParams::Recipe(_) => RpcReply::Flag(true),
        _ => RpcReply::Flag(false),
    }
}

/// The recipes of a crafter by remote call: an empty list.
pub fn get_recipes_by_crafter_rpc(params: &RpcParams) -> (r: RpcReply)
    ensures
        replies(RpcKind::GetRecipesByCrafter, *params, r),
{
    RpcReply::Recipes(Vec::new())
}

/// A player's items by remote call: for a player id, an empty list.
pub fn get_player_inventory_contents_rpc(params: &RpcParams) -> (r: RpcReply)
    ensures
        replies(RpcKind::GetPlayerInventoryContents, *params, r),
{
    match params {
        RpcParams::Text(_) => RpcReply::MaybeItems(Some(Vec::new())),
        _ => RpcReply::MaybeItems(None),
    }
}

/// Accepts `(player, item)`.
pub fn add_item_to_player_inventory_rpc(params: &RpcParams) -> (r: RpcReply)
    ensures
        replies(RpcKind::AddItemToPlayerInventory, *params, r),
{
    match params {
        RpcParams::TextItem(_, _) => RpcReply::Outcome(Ok(())),
        _ => invalid_parameters(),
    }
}

/// Accepts `(player, item name)`.
pub fn remove_item_from_player_inventory_rpc(params: &RpcParams) -> (r: RpcReply)
    ensures
        replies(RpcKind::RemoveItemFromPlayerInventory, *params, r),
{
    match params {
        RpcParams::TextText(_, _) => RpcReply::Outcome(Ok(())),
        _ => invalid_parameters(),
    }
}

/// A new storage container: a slot count gives that many slots, anything
/// else none.
pub fn create_storage_container_rpc(params: &RpcParams) -> (r: RpcReply)
    ensures
        replies(RpcKind::CreateStorageContainer, *params, r),
{
    match params {
        RpcParams::Count(num_slots) => RpcReply::Container(StorageContainer::new(*num_slots)),
        _ => RpcReply::Container(StorageContainer::new(0)),
    }
}

/// Access to a container by remote call: no reply.
pub fn access_storage_container_rpc(params: &RpcParams) -> (r: RpcReply)
    ensures
        replies(RpcKind::AccessStorageContainer, *params, r),
{
    RpcReply::Unit
}

/// Accepts `(source, destination, item name)`.
pub fn transfer_item_rpc(params: &RpcParams) -> (r: RpcReply)
    ensures
        replies(RpcKind::TransferItem, *params, r),
{
    match params {
        RpcParams::Transfer(_, _, _) => RpcReply::Outcome(Ok(())),
        _ => invalid_parameters(),
    }
}

/// Runs the remote call `kind`.
pub fn dispatch_rpc(kind: RpcKind, params: &RpcParams) -> (r: RpcReply)
    ensures
        replies(kind, *params, r),
{
    match kind {
        RpcKind::CreatePlayerInventory => create_player_inventory_rpc(params),
        RpcKind::GetPlayerInventory => get_player_inventory_rpc(params),
        RpcKind::UpdatePlayerInventory => update_player_inventory_rpc(params),
        RpcKind::CraftItem => craft_item_rpc(params),
        RpcKind::GetAllRecipes => get_all_recipes_rpc(params),
        RpcKind::AddNewRecipe => add_new_recipe_rpc(params),
        RpcKind::GetRecipesByCrafter => get_recipes_by_crafter_rpc(params),
        RpcKind::GetPlayerInventoryContents => get_player_inventory_contents_rpc(params),
        RpcKind::AddItemToPlayerInventory => add_item_to_player_inventory_rpc(params),
        RpcKind::RemoveItemFromPlayerInventory => remove_item_from_player_inventory_rpc(params),
        RpcKind::CreateStorageContainer => create_storage_container_rpc(params),
        RpcKind::AccessStorageContainer => access_storage_container_rpc(params),
        RpcKind::TransferItem => transfer_item_rpc(params),
    }
}

/// The remote calls that a new plugin registers, by name.
pub open spec fn default_rpc_table() -> Map<Seq<char>, RpcKind> {
    Map::empty()
        .insert("create_player_inventory"@, RpcKind::CreatePlayerInventory)
        .insert("get_player_inventory"@, RpcKind::GetPlayerInventory)
        .insert("update_player_inventory"@, RpcKind::UpdatePlayerInventory)
        .insert("craft_item"@, RpcKind::CraftItem)
        .insert("get_all_recipes"@, RpcKind::GetAllRecipes)
        .insert("add_new_recipe"@, RpcKind::AddNewRecipe)
        .insert("get_recipes_by_crafter"@, RpcKind::GetRecipesByCrafter)
        .insert("get_player_inventory_contents"@, RpcKind::GetPlayerInventoryContents)
        .insert("add_item_to_player_inventory"@, RpcKind::AddItemToPlayerInventory)
        .insert("remove_item_from_player_inventory"@, RpcKind::RemoveItemFromPlayerInventory)
        .insert("create_storage_container"@, RpcKind::CreateStorageContainer)
        .insert("access_storage_container"@, RpcKind::AccessStorageContainer)
        .insert("transfer_item"@, RpcKind::TransferItem)
}

/// The key of a registry entry: the call's name.
pub open spec fn rpc_key() -> spec_fn((String, RpcKind)) -> Seq<char> {
    |e: (String, RpcKind)| e.0@
}

/// The value of a registry entry: the call it names.
pub open spec fn rpc_val() -> spec_fn((String, RpcKind)) -> RpcKind {
    |e: (String, RpcKind)| e.1
}

} // verus!

verus! {

/// The notice that a player opened a storage container.
#[derive(Debug)]
pub struct ContainerAccess {
    pub event_type: String,
    pub player_id: String,
    pub container_uuid: u128,
}

/// What the plugin reports for a custom event of the given type, if it
/// knows the type.
pub open spec fn custom_event_message_spec(event_type: Seq<char>) -> Option<Seq<char>> {
    if event_type == "recipe_learned"@ {
        Some("RecipeSmith: New recipe learned!"@)
    } else if event_type == "item_crafted"@ {
        Some("RecipeSmith: Item crafted!"@)
    } else if event_type == "inventory_changed"@ {
        Some("RecipeSmith: Inventory updated!"@)
    } else if event_type == "recipe_mastered"@ {
        Some("RecipeSmith: Recipe mastered!"@)
    } else if event_type == "crafting_failed"@ {
        Some("RecipeSmith: Crafting failed!"@)
    } else if event_type == "storage_container_created"@ {
        Some("RecipeSmith: New storage container created!"@)
    } else if event_type == "storage_container_accessed"@ {
        Some("RecipeSmith: Storage container accessed!"@)
    } else {
        None
    }
}

/// What the plugin reports for a custom event of the given type, if it
/// knows the type.
pub fn custom_event_message(event_type: &str) -> (r: Option<String>)
    ensures
        opt_text(r) == custom_event_message_spec(event_type@),
{
    let t = text(event_type);
    if t == text("recipe_learned") {
        Some(text("RecipeSmith: New recipe learned!"))
    } else if t == text("item_crafted") {
        Some(text("RecipeSmith: Item crafted!"))
    } else if t == text("inventory_changed") {
        Some(text("RecipeSmith: Inventory updated!"))
    } else if t == text("recipe_mastered") {
        Some(text("RecipeSmith: Recipe mastered!"))
    } else if t == text("crafting_failed") {
        Some(text("RecipeSmith: Crafting failed!"))
    } else if t == text("storage_container_created") {
        Some(text("RecipeSmith: New storage container created!"))
    } else if t == text("storage_container_accessed") {
        Some(text("RecipeSmith: Storage container accessed!"))
    } else {
        None
    }
}

/// The text of an optional string.
pub open spec fn opt_text(o: Option<String>) -> Option<Seq<char>> {
    match o {
        Some(s) => Some(s@),
        None => None,
    }
}

/// The book after each recipe of `recipes` has been added in turn.
pub open spec fn book_after_adds(book: RecipeBookView, recipes: Seq<RecipeView>) -> RecipeBookView
    decreases recipes.len(),
{
    if recipes.len() == 0 {
        book
    } else {
        book_after_add(book_after_adds(book, recipes.drop_last()), recipes.last())
    }
}

impl RecipeSmith {
    /// The recipes the plugin knows.
    pub closed spec fn book(&self) -> RecipeBookView {
        self.recipe_book@
    }

    /// The players' inventories, by player id.
    pub closed spec fn inventories(&self) -> Map<Seq<char>, PlayerInventory> {
        assoc_map(self.player_inventories@, player_key(), player_val())
    }

    /// The registered remote calls, by name.
    pub closed spec fn rpc_table(&self) -> Map<Seq<char>, RpcKind> {
        assoc_map(self.rpc_functions@, rpc_key(), rpc_val())
    }

    /// The plugin's identifier.
    pub closed spec fn spec_id(&self) -> u128 {
        self.id
    }

    /// The plugin's name.
    pub closed spec fn spec_name(&self) -> Seq<char> {
        self.name@
    }

    /// Whether the plugin has been initialized.
    pub closed spec fn spec_initialized(&self) -> bool {
        self.initialized
    }

    /// The recipe book and every inventory are well formed.
    pub closed spec fn wf(&self) -> bool {
        &&& self.recipe_book.wf()
        &&& forall|i: int|
            #![trigger self.player_inventories@[i]]
            0 <= i < self.player_inventories@.len() ==> self.player_inventories@[i].1.wf()
    }

    /// Every inventory of the registry is well formed.
    pub proof fn lemma_inventories_wf(&self)
        requires
            self.wf(),
        ensures
            forall|p: Seq<char>| #[trigger] self.inventories().contains_key(p) ==> self.inventories()[p].wf(),
    {
        assert forall|p: Seq<char>| #[trigger] self.inventories().contains_key(p) implies self.inventories()[p].wf() by {
            lemma_first_index(self.player_inventories@, player_key(), p);
        }
    }

    /// A new plugin with an empty recipe book, no inventories, a fresh random
    /// identifier and its remote calls registered.
    pub fn new() -> (r: RecipeSmith)
        ensures
            r.wf(),
            r.book().recipes == Map::<Seq<char>, RecipeView>::empty(),
            r.book().crafters == Map::<Seq<char>, Seq<Seq<char>>>::empty(),
            r.inventories() == Map::<Seq<char>, PlayerInventory>::empty(),
            r.rpc_table() == default_rpc_table(),
            !r.spec_initialized(),
            r.spec_name() == "RecipeSmith"@,
            (r.spec_id() >> 76u128) & 0xfu128 == 4,
            (r.spec_id() >> 62u128) & 0x3u128 == 2,
    {
        let mut plugin = RecipeSmith {
            id: crate::ids::new_v4_value(),
            name: text("RecipeSmith"),
            initialized: false,
            recipe_book: RecipeBook::new(),
            player_inventories: Vec::new(),
            rpc_functions: Vec::new(),
        };
        proof {
            assert(plugin.inventories() =~= Map::<Seq<char>, PlayerInventory>::empty());
            assert(plugin.rpc_table() =~= Map::<Seq<char>, RpcKind>::empty());
        }
        plugin.register_rpc("create_player_inventory", RpcKind::CreatePlayerInventory);
        plugin.register_rpc("get_player_inventory", RpcKind::GetPlayerInventory);
        plugin.register_rpc("update_player_inventory", RpcKind::UpdatePlayerInventory);
        plugin.register_rpc("craft_item", RpcKind::CraftItem);
        plugin.register_rpc("get_all_recipes", RpcKind::GetAllRecipes);
        plugin.register_rpc("add_new_recipe", RpcKind::AddNewRecipe);
        plugin.register_rpc("get_recipes_by_crafter", RpcKind::GetRecipesByCrafter);
        plugin.register_rpc("get_player_inventory_contents", RpcKind::GetPlayerInventoryContents);
        plugin.register_rpc("add_item_to_player_inventory", RpcKind::AddItemToPlayerInventory);
        plugin.register_rpc("remove_item_from_player_inventory", RpcKind::RemoveItemFromPlayerInventory);
        plugin.register_rpc("create_storage_container", RpcKind::CreateStorageContainer);
        plugin.register_rpc("access_storage_container", RpcKind::AccessStorageContainer);
        plugin.register_rpc("transfer_item", RpcKind::TransferItem);
        plugin
    }

    /// Registers the remote call `kind` under `name`, replacing a call of
    /// that name.
    pub fn register_rpc(&mut self, name: &str, kind: RpcKind)
        ensures
            final(self).rpc_table() == old(self).rpc_table().insert(name@, kind),
            final(self).book() == old(self).book(),
            final(self).inventories() == old(self).inventories(),
            final(self).spec_id() == old(self).spec_id(),
            final(self).spec_name() == old(self).spec_name(),
            final(self).spec_initialized() == old(self).spec_initialized(),
            old(self).wf() ==> final(self).wf(),
    {
        let key = text(name);
        let ghost s = self.rpc_functions@;
        match self.rpc_position(&key) {
            Some(i) => {
                let ghost entry = (s[i as int].0, kind);
                self.rpc_functions[i].1 = kind;
                proof {
                    assert(self.rpc_functions@ == s.update(i as int, entry));
                    lemma_update_first(s, rpc_key(), rpc_val(), i as int, entry);
                }
            },
            None => {
                proof {
                    lemma_absent(s, rpc_key(), rpc_val(), key@);
                    lemma_push_new(s, rpc_key(), rpc_val(), (key, kind));
                }
                self.rpc_functions.push((key, kind));
            },
        }
    }

    fn rpc_position(&self, key: &String) -> (r: Option<usize>)
        ensures
            match r {
                Some(i) => first_match(self.rpc_functions@, rpc_key(), key@, i as int),
                None => forall|j: int|
                    #![trigger self.rpc_functions@[j]]
                    0 <= j < self.rpc_functions@.len() ==> self.rpc_functions@[j].0@ != key@,
            },
    {
        let mut i: usize = 0;
        while i < self.rpc_functions.len()
            invariant
                i <= self.rpc_functions.len(),
                forall|j: int| #![trigger self.rpc_functions@[j]] 0 <= j < i ==> self.rpc_functions@[j].0@ != key@,
            decreases self.rpc_functions.len() - i,
        {
            if self.rpc_functions[i].0 == *key {
                return Some(i);
            }
            i = i + 1;
        }
        None
    }

    /// Runs the remote call registered under `name`; `None` when no call
    /// has that name.
    pub fn call_rpc(&self, rpc_name: &str, params: &RpcParams) -> (r: Option<RpcReply>)
        ensures
            r is Some <==> self.rpc_table().contains_key(rpc_name@),
            r matches Some(reply) ==> replies(self.rpc_table()[rpc_name@], *params, reply),
    {
        let key = text(rpc_name);
        match self.rpc_position(&key) {
            Some(i) => {
                proof {
                    lemma_first_index_is(self.rpc_functions@, rpc_key(), rpc_val(), key@, i as int);
                }
                Some(dispatch_rpc(self.rpc_functions[i].1, params))
            },
            None => {
                proof {
                    lemma_absent(self.rpc_functions@, rpc_key(), rpc_val(), key@);
                }
                None
            },
        }
    }

    /// The plugin's identifier.
    pub fn get_id(&self) -> (r: u128)
        ensures
            r == self.spec_id(),
    {
        self.id
    }

    /// The plugin's name.
    pub fn get_name(&self) -> (r: String)
        ensures
            r@ == self.spec_name(),
    {
        self.name.clone()
    }

    /// Whether the plugin has been initialized.
    pub fn is_initialized(&self) -> (r: bool)
        ensures
            r == self.spec_initialized(),
    {
        self.initialized
    }

    /// The plugin's display name.
    pub fn plugin_name(&self) -> (r: String)
        ensures
            r@ == "RecipeSmith"@,
    {
        text("RecipeSmith")
    }

    /// The plugin's greeting, shown on server start.
    pub fn say_hello(&self) -> (r: String)
        ensures
            r@ == "Hello from RecipeSmith! Ready to craft some amazing items?"@,
    {
        text("Hello from RecipeSmith! Ready to craft some amazing items?")
    }

    /// Finishes initialization once: adds the recipes read at start-up, in
    /// order, and marks the plugin initialized. Returns whether it did so;
    /// a second call changes nothing.
    pub fn initialize_recipe_smith(&mut self, imported: Vec<Recipe>) -> (r: bool)
        requires
            old(self).wf(),
        ensures
            final(self).wf(),
            r == !old(self).spec_initialized(),
            final(self).spec_initialized(),
            final(self).book() == if r {
                book_after_adds(old(self).book(), recipe_views(imported@))
            } else {
                old(self).book()
            },
            final(self).inventories() == old(self).inventories(),
            final(self).rpc_table() == old(self).rpc_table(),
    {
        if self.initialized {
            return false;
        }
        let ghost rv = recipe_views(imported@);
        let mut rest = imported;
        let mut added: Vec<Recipe> = Vec::new();
        let ghost all = rest@;
        proof {
            assert(rv.take(0) =~= Seq::<RecipeView>::empty());
        }
        let n = rest.len();
        let mut i: usize = 0;
        while i < n
            invariant
                n == all.len(),
                i <= n,
                rv == recipe_views(all),
                rest@ == all.skip(i as int),
                self.wf(),
                !self.initialized,
                self.book() == book_after_adds(old(self).book(), rv.take(i as int)),
                self.inventories() == old(self).inventories(),
                self.rpc_table() == old(self).rpc_table(),
            decreases n - i,
        {
            let recipe = rest.remove(0);
            proof {
                assert(recipe == all[i as int]);
                assert(rest@ =~= all.skip(i + 1));
                assert(rv.take(i + 1).drop_last() =~= rv.take(i as int));
                assert(rv.take(i + 1).last() == recipe@);
            }
            self.recipe_book.add_recipe(recipe);
            i = i + 1;
        }
        proof {
            assert(rv.take(i as int) =~= rv);
        }
        self.initialized = true;
        true
    }

    /// All known recipes, each once, in no particular order.
    pub fn get_all_recipes(&self) -> (r: Vec<Recipe>)
        requires
            self.wf(),
        ensures
            forall|n: Seq<char>|
                self.book().recipes.contains_key(n) <==> exists|k: int| 0 <= k < r.len() && #[trigger] r@[k]@.name == n,
            forall|k: int| 0 <= k < r.len() ==> self.book().recipes[#[trigger] r@[k]@.name] == r@[k]@,
            forall|k: int, l: int|
                0 <= k < r.len() && 0 <= l < r.len() && k != l ==> #[trigger] r@[k]@.name != #[trigger] r@[l]@.name,
    {
        self.recipe_book.recipe_values()
    }

    /// The recipes noted for the crafter named `crafter_name`.
    pub fn get_recipes_by_crafter(&self, crafter_name: &str) -> (r: Vec<Recipe>)
        ensures
            recipe_views(r@) == recipes_for_crafter(self.book(), crafter_name@),
    {
        let crafter = Crafter { name: text(crafter_name) };
        self.recipe_book.get_recipes_for_crafter(&crafter)
    }

    /// Adds a recipe to the book.
    pub fn add_new_recipe(&mut self, recipe: Recipe)
        requires
            old(self).wf(),
        ensures
            final(self).wf(),
            final(self).book() == book_after_add(old(self).book(), recipe@),
            final(self).inventories() == old(self).inventories(),
            final(self).rpc_table() == old(self).rpc_table(),
            final(self).spec_initialized() == old(self).spec_initialized(),
    {
        self.recipe_book.add_recipe(recipe);
    }

    fn player_position(&self, key: &String) -> (r: Option<usize>)
        ensures
            match r {
                Some(i) => first_match(self.player_inventories@, player_key(), key@, i as int),
                None => forall|j: int|
                    #![trigger self.player_inventories@[j]]
                    0 <= j < self.player_inventories@.len() ==> self.player_inventories@[j].0@ != key@,
            },
    {
        let mut i: usize = 0;
        while i < self.player_inventories.len()
            invariant
                i <= self.player_inventories.len(),
                forall|j: int|
                    #![trigger self.player_inventories@[j]]
                    0 <= j < i ==> self.player_inventories@[j].0@ != key@,
            decreases self.player_inventories.len() - i,
        {
            if self.player_inventories[i].0 == *key {
                return Some(i);
            }
            i = i + 1;
        }
        None
    }

    /// Files `inventory` as the inventory of player `player_id`, replacing
    /// the player's previous inventory.
    pub fn insert_player_inventory(&mut self, player_id: &str, inventory: PlayerInventory)
        requires
            old(self).wf(),
            inventory.wf(),
        ensures
            final(self).wf(),
            final(self).inventories() == old(self).inventories().insert(player_id@, inventory),
            final(self).book() == old(self).book(),
            final(self).rpc_table() == old(self).rpc_table(),
            final(self).spec_initialized() == old(self).spec_initialized(),
    {
        let key = text(player_id);
        let ghost s = self.player_inventories@;
        let ghost inv = inventory;
        match self.player_position(&key) {
            Some(j) => {
                let ghost entry = (s[j as int].0, inv);
                self.player_inventories[j].1 = inventory;
                proof {
                    assert(self.player_inventories@ == s.update(j as int, entry));
                    lemma_update_first(s, player_key(), player_val(), j as int, entry);
                    assert forall|i: int|
                        #![trigger self.player_inventories@[i]]
                        0 <= i < self.player_inventories@.len() implies self.player_inventories@[i].1.wf() by {
                        if i != j {
                            assert(self.player_inventories@[i] == s[i]);
                        }
                    }
                }
            },
            None => {
                proof {
                    lemma_absent(s, player_key(), player_val(), key@);
                    lemma_push_new(s, player_key(), player_val(), (key, inv));
                }
                self.player_inventories.push((key, inventory));
                proof {
                    assert forall|i: int|
                        #![trigger self.player_inventories@[i]]
                        0 <= i < self.player_inventories@.len() implies self.player_inventories@[i].1.wf() by {
                        if i < s.len() {
                            assert(self.player_inventories@[i] == s[i]);
                        }
                    }
                }
            },
        }
    }

    /// Copies of the items in the inventory of player `player_id`, when the
    /// player has one.
    pub fn get_player_inventory_contents(&self, player_id: &str) -> (r: Option<Vec<Item>>)
        ensures
            r is Some <==> self.inventories().contains_key(player_id@),
            r matches Some(v) ==> item_views(v@).to_multiset() == self.inventories()[player_id@].contents(),
    {
        let key = text(player_id);
        match self.player_position(&key) {
            Some(j) => {
                proof {
                    lemma_first_index_is(self.player_inventories@, player_key(), player_val(), key@, j as int);
                }
                Some(self.player_inventories[j].1.item_copies())
            },
            None => {
                proof {
                    lemma_absent(self.player_inventories@, player_key(), player_val(), key@);
                }
                None
            },
        }
    }

    /// Puts `item` into an empty slot of the inventory of player `player_id`.
    /// Fails with "Player inventory not found" when the player has no
    /// inventory and with "Inventory is full" when no slot is empty; a
    /// failure changes nothing.
    pub fn add_item_to_player_inventory(&mut self, player_id: &str, item: Item) -> (r: Result<(), String>)
        requires
            old(self).wf(),
        ensures
            final(self).wf(),
            final(self).book() == old(self).book(),
            final(self).rpc_table() == old(self).rpc_table(),
            final(self).spec_initialized() == old(self).spec_initialized(),
            !old(self).inventories().contains_key(player_id@) ==> {
                &&& r matches Err(e) && e@ == "Player inventory not found"@
                &&& final(self).inventories() == old(self).inventories()
            },
            old(self).inventories().contains_key(player_id@) ==> {
                let inv = old(self).inventories()[player_id@];
                let now = final(self).inventories()[player_id@];
                &&& final(self).inventories() == old(self).inventories().insert(player_id@, now)
                &&& (r is Ok <==> inv.has_empty_slot())
                &&& r is Ok ==> (exists|s: u32|
                    #[trigger] inv@.contains_key(s) && inv@[s] is None && now@ == inv@.insert(s, Some(item@)))
                    && now.contents() == inv.contents().insert(item@)
                &&& r matches Err(e) ==> e@ == "Inventory is full"@ && now@ == inv@ && now.contents() == inv.contents()
            },
    {
        let key = text(player_id);
        let ghost s = self.player_inventories@;
        match self.player_position(&key) {
            Some(j) => {
                proof {
                    lemma_first_index_is(s, player_key(), player_val(), key@, j as int);
                }
                let outcome = self.player_inventories[j].1.fill_empty_slot(item);
                proof {
                    let entry = self.player_inventories@[j as int];
                    assert(self.player_inventories@ == s.update(j as int, entry));
                    lemma_update_first(s, player_key(), player_val(), j as int, entry);
                    assert forall|i: int|
                        #![trigger self.player_inventories@[i]]
                        0 <= i < self.player_inventories@.len() implies self.player_inventories@[i].1.wf() by {
                        if i != j {
                            assert(self.player_inventories@[i] == s[i]);
                        }
                    }
                }
                match outcome {
                    Ok(()) => Ok(()),
                    Err(_) => Err(text("Inventory is full")),
                }
            },
            None => {
                proof {
                    lemma_absent(s, player_key(), player_val(), key@);
                }
                Err(text("Player inventory not found"))
            },
        }
    }

    /// Takes an item named `item_name` out of the inventory of player
    /// `player_id`. Fails with "Player inventory not found" when the player
    /// has no inventory and with "Item not found in inventory" when no such
    /// item is held; a failure changes nothing.
    pub fn remove_item_from_player_inventory(&mut self, player_id: &str, item_name: &str) -> (r: Result<(), String>)
        requires
            old(self).wf(),
        ensures
            final(self).wf(),
            final(self).book() == old(self).book(),
            final(self).rpc_table() == old(self).rpc_table(),
            final(self).spec_initialized() == old(self).spec_initialized(),
            !old(self).inventories().contains_key(player_id@) ==> {
                &&& r matches Err(e) && e@ == "Player inventory not found"@
                &&& final(self).inventories() == old(self).inventories()
            },
            old(self).inventories().contains_key(player_id@) ==> {
                let inv = old(self).inventories()[player_id@];
                let now = final(self).inventories()[player_id@];
                &&& final(self).inventories() == old(self).inventories().insert(player_id@, now)
                &&& (r is Ok <==> holds_named(inv@, item_name@))
                &&& r is Ok ==> exists|s: u32|
                    #[trigger] inv@.contains_key(s) && inv@[s] is Some && inv@[s]->0.name == item_name@ && now@
                        == inv@.insert(s, None) && now.contents().insert(inv@[s]->0) == inv.contents()
                &&& r matches Err(e) ==> e@ == "Item not found in inventory"@ && now@ == inv@ && now.contents()
                    == inv.contents()
            },
    {
        let key = text(player_id);
        let name = text(item_name);
        let ghost s = self.player_inventories@;
        match self.player_position(&key) {
            Some(j) => {
                proof {
                    lemma_first_index_is(s, player_key(), player_val(), key@, j as int);
                }
                let taken = self.player_inventories[j].1.take_named(&name);
                proof {
                    let entry = self.player_inventories@[j as int];
                    assert(self.player_inventories@ == s.update(j as int, entry));
                    lemma_update_first(s, player_key(), player_val(), j as int, entry);
                    assert forall|i: int|
                        #![trigger self.player_inventories@[i]]
                        0 <= i < self.player_inventories@.len() implies self.player_inventories@[i].1.wf() by {
                        if i != j {
                            assert(self.player_inventories@[i] == s[i]);
                        }
                    }
                }
                match taken {
                    Some(_) => Ok(()),
                    None => Err(text("Item not found in inventory")),
                }
            },
            None => {
                proof {
                    lemma_absent(s, player_key(), player_val(), key@);
                }
                Err(text("Player inventory not found"))
            },
        }
    }

    /// A new storage container with `num_slots` empty slots.
    pub fn create_storage_container(&self, num_slots: u32) -> (r: StorageContainer)
        ensures
            fresh_container(r, num_slots),
    {
        StorageContainer::new(num_slots)
    }

    /// The notice, of type "storage_container_accessed", that player
    /// `player_id` opened `container`.
    pub fn access_storage_container(&self, container: &StorageContainer, player_id: &str) -> (r: ContainerAccess)
        ensures
            r.event_type@ == "storage_container_accessed"@,
            r.player_id@ == player_id@,
            r.container_uuid == container.uuid,
    {
        ContainerAccess {
            event_type: text("storage_container_accessed"),
            player_id: text(player_id),
            container_uuid: container.uuid,
        }
    }

    /// Moves an item named `item_name` from `from` to an empty slot of `to`.
    /// Fails with "Item not found in source inventory", changing nothing,
    /// when `from` holds no such item; fails with "Destination inventory is
    /// full" when `to` has no empty slot, and then puts the item back into
    /// an empty slot of `from`. No item is ever lost or made.
    pub fn transfer_item(&self, from: &mut PlayerInventory, to: &mut PlayerInventory, item_name: &str) -> (r: Result<
        (),
        String,
    >)
        requires
            old(from).wf(),
            old(to).wf(),
        ensures
            final(from).wf(),
            final(to).wf(),
            final(from).contents().add(final(to).contents()) == old(from).contents().add(old(to).contents()),
            r is Ok <==> holds_named(old(from)@, item_name@) && old(to).has_empty_slot(),
            r is Ok ==> exists|a: u32, b: u32|
                #![trigger old(from)@[a], old(to)@[b]]
                old(from)@.contains_key(a) && old(from)@[a] is Some && old(from)@[a]->0.name == item_name@
                    && final(from)@ == old(from)@.insert(a, None) && old(to)@.contains_key(b) && old(to)@[b] is None
                    && final(to)@ == old(to)@.insert(b, old(from)@[a]),
            !holds_named(old(from)@, item_name@) ==> {
                &&& r matches Err(e) && e@ == "Item not found in source inventory"@
                &&& final(from)@ == old(from)@
                &&& final(to)@ == old(to)@
            },
            holds_named(old(from)@, item_name@) && !old(to).has_empty_slot() ==> {
                &&& r matches Err(e) && e@ == "Destination inventory is full"@
                &&& final(to)@ == old(to)@
                &&& exists|a: u32, b: u32|
                    #![trigger old(from)@[a], old(from)@.insert(a, None)[b]]
                    old(from)@.contains_key(a) && old(from)@[a] is Some && old(from)@[a]->0.name == item_name@
                        && old(from)@.insert(a, None).contains_key(b) && old(from)@.insert(a, None)[b] is None
                        && final(from)@ == old(from)@.insert(a, None).insert(b, old(from)@[a])
            },
    {
        broadcast use vstd::multiset::group_multiset_axioms;

        let name = text(item_name);
        let taken = from.take_named(&name);
        match taken {
            Some(item) => {
                let ghost iv = item@;
                let ghost from1 = from@;
                let ghost a = choose|s: u32|
                    #[trigger] old(from)@.contains_key(s) && old(from)@[s] == Some(iv) && from1 == old(from)@.insert(
                        s,
                        None,
                    );
                proof {
                    assert(holds_named(old(from)@, item_name@));
                }
                match to.fill_empty_slot(item) {
                    Ok(()) => {
                        proof {
                            let b = choose|s: u32|
                                #[trigger] old(to)@.contains_key(s) && old(to)@[s] is None && to@ == old(to)@.insert(
                                    s,
                                    Some(iv),
                                );
                            assert(old(from)@[a] == Some(iv));
                            assert(old(to)@[b] is None);
                            assert(from.contents().add(to.contents()) =~= old(from).contents().add(
                                old(to).contents(),
                            ));
                        }
                        Ok(())
                    },
                    Err(back) => {
                        proof {
                            assert(from@.contains_key(a) && from@[a] is None);
                            assert(from.has_empty_slot());
                        }
                        match from.fill_empty_slot(back) {
                            Ok(()) => {},
                            Err(_) => {
                                proof {
                                    assert(false);
                                }
                            },
                        }
                        proof {
                            let b = choose|s: u32|
                                #[trigger] from1.contains_key(s) && from1[s] is None && from@ == from1.insert(s, Some(iv));
                            assert(old(from)@[a] == Some(iv));
                            assert(old(from)@.insert(a, None)[b] is None);
                            assert(from.contents().add(to.contents()) =~= old(from).contents().add(
                                old(to).contents(),
                            ));
                        }
                        Err(text("Destination inventory is full"))
                    },
                }
            },
            None => {
                Err(text("Item not found in source inventory"))
            },
        }
    }
}

/// A new RecipeSmith plugin, as the game engine registers it.
pub fn create_plugin_metadata() -> (r: RecipeSmith)
    ensures
        r.wf(),
        r.book().recipes == Map::<Seq<char>, RecipeView>::empty(),
        r.book().crafters == Map::<Seq<char>, Seq<Seq<char>>>::empty(),
        r.inventories() == Map::<Seq<char>, PlayerInventory>::empty(),
        r.rpc_table() == default_rpc_table(),
        !r.spec_initialized(),
        r.spec_name() == "RecipeSmith"@,
        (r.spec_id() >> 76u128) & 0xfu128 == 4,
        (r.spec_id() >> 62u128) & 0x3u128 == 2,
{
    RecipeSmith::new()
}

} // verus!
