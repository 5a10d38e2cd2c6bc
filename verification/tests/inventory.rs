use horizon::inventory::{Item, PlayerInventory, StorageContainer};
use horizon::recipe::{Crafter, Ingredient, Recipe};
use horizon::recipe_smith::{
    custom_event_message, dispatch_rpc, RecipeSmith, RpcKind, RpcParams, RpcReply,
};

fn item(name: &str) -> Item {
    Item { name: name.to_string(), model: None, meta_tags: Vec::new() }
}

fn version_bits(id: u128) -> (u128, u128) {
    ((id >> 76) & 0xf, (id >> 62) & 0x3)
}

#[test]
fn add_then_get_item() {
    let mut inv = PlayerInventory::new(3);
    assert!(inv.get_item(0).is_none());
    inv.add_item(1, item("Sword"));
    assert_eq!(inv.get_item(1).unwrap().name, "Sword");
    assert!(inv.get_item(0).is_none());
    assert!(inv.get_item(7).is_none());
}

#[test]
fn slots_are_fixed() {
    let mut inv = PlayerInventory::new(2);
    inv.add_item(5, item("Sword"));
    assert!(inv.get_item(5).is_none());
    assert!(inv.remove_item(5).is_none());
    inv.empty_slot(5);
    assert!(inv.get_item(5).is_none());
    // both real slots are still there and usable
    inv.add_item(0, item("Axe"));
    inv.add_item(1, item("Bow"));
    assert_eq!(inv.get_item(0).unwrap().name, "Axe");
    assert_eq!(inv.get_item(1).unwrap().name, "Bow");
    let mut smith = RecipeSmith::new();
    smith.insert_player_inventory("p", inv);
    assert_eq!(smith.get_player_inventory_contents("p").unwrap().len(), 2);
    assert_eq!(smith.add_item_to_player_inventory("p", item("Gem")), Err("Inventory is full".to_string()));
}

#[test]
fn remove_gives_back_item() {
    let mut inv = PlayerInventory::new(3);
    inv.add_item(2, item("Shield"));
    let back = inv.remove_item(2).unwrap();
    assert_eq!(back.name, "Shield");
    assert!(inv.get_item(2).is_none());
    assert!(inv.remove_item(2).is_none());
}

#[test]
fn empty_slot_clears_it() {
    let mut inv = PlayerInventory::new(2);
    inv.add_item(0, item("Gem"));
    inv.empty_slot(0);
    assert!(inv.get_item(0).is_none());
}

#[test]
fn adding_replaces_the_slot_item() {
    let mut inv = PlayerInventory::new(2);
    inv.add_item(0, item("Gem"));
    inv.add_item(0, item("Rock"));
    assert_eq!(inv.get_item(0).unwrap().name, "Rock");
}

#[test]
fn item_copy_keeps_fields() {
    let it = Item {
        name: "Helm".to_string(),
        model: Some("helm.fbx".to_string()),
        meta_tags: vec![("armor".to_string(), "5".to_string())],
    };
    let d = it.duplicate();
    assert_eq!(d.name, "Helm");
    assert_eq!(d.model, Some("helm.fbx".to_string()));
    assert_eq!(d.meta_tags, vec![("armor".to_string(), "5".to_string())]);
}

#[test]
fn storage_container_has_version_four_uuid() {
    let c = StorageContainer::new(4);
    assert_eq!(version_bits(c.uuid), (4, 2));
    let d = StorageContainer::new(4);
    assert_ne!(c.uuid, d.uuid);
}

fn smith_with_player(id: &str, slots: u32) -> RecipeSmith {
    let mut smith = RecipeSmith::new();
    smith.insert_player_inventory(id, PlayerInventory::new(slots));
    smith
}

#[test]
fn recipe_smith_identity() {
    let smith = RecipeSmith::new();
    assert_eq!(smith.get_name(), "RecipeSmith");
    assert_eq!(smith.plugin_name(), "RecipeSmith");
    assert!(!smith.is_initialized());
    assert_eq!(version_bits(smith.get_id()), (4, 2));
    assert_eq!(smith.say_hello(), "Hello from RecipeSmith! Ready to craft some amazing items?");
}

#[test]
fn recipe_smith_registers_remote_calls() {
    let smith = RecipeSmith::new();
    for name in [
        "create_player_inventory",
        "get_player_inventory",
        "update_player_inventory",
        "craft_item",
        "get_all_recipes",
        "add_new_recipe",
        "get_recipes_by_crafter",
        "get_player_inventory_contents",
        "add_item_to_player_inventory",
        "remove_item_from_player_inventory",
        "create_storage_container",
        "access_storage_container",
        "transfer_item",
    ] {
        assert!(smith.call_rpc(name, &RpcParams::Nothing).is_some(), "{}", name);
    }
    assert!(smith.call_rpc("no_such_call", &RpcParams::Nothing).is_none());
}

#[test]
fn remote_calls_answer_by_shape() {
    match dispatch_rpc(RpcKind::CreatePlayerInventory, &RpcParams::TextCount("p".to_string(), 5)) {
        RpcReply::Inventory(inv) => {
            assert!(inv.get_item(4).is_none());
        }
        _ => panic!("expected an inventory"),
    }
    match dispatch_rpc(RpcKind::CraftItem, &RpcParams::TextText("p".to_string(), "Bread".to_string())) {
        RpcReply::MaybeText(Some(t)) => assert_eq!(t, "Crafted Item"),
        _ => panic!("expected crafted text"),
    }
    match dispatch_rpc(RpcKind::AddItemToPlayerInventory, &RpcParams::Nothing) {
        RpcReply::Outcome(Err(e)) => assert_eq!(e, "Invalid parameters"),
        _ => panic!("expected an error"),
    }
    match dispatch_rpc(RpcKind::UpdatePlayerInventory, &RpcParams::Nothing) {
        RpcReply::Flag(b) => assert!(!b),
        _ => panic!("expected a flag"),
    }
    match dispatch_rpc(RpcKind::CreateStorageContainer, &RpcParams::Count(3)) {
        RpcReply::Container(c) => assert_eq!(version_bits(c.uuid), (4, 2)),
        _ => panic!("expected a container"),
    }
}

#[test]
fn add_and_remove_player_items() {
    let mut smith = smith_with_player("alice", 1);
    assert_eq!(smith.add_item_to_player_inventory("alice", item("Ore")), Ok(()));
    assert_eq!(
        smith.add_item_to_player_inventory("alice", item("Ore")),
        Err("Inventory is full".to_string())
    );
    assert_eq!(
        smith.add_item_to_player_inventory("bob", item("Ore")),
        Err("Player inventory not found".to_string())
    );
    let contents = smith.get_player_inventory_contents("alice").unwrap();
    assert_eq!(contents.len(), 1);
    assert_eq!(contents[0].name, "Ore");
    assert!(smith.get_player_inventory_contents("bob").is_none());
    assert_eq!(
        smith.remove_item_from_player_inventory("alice", "Gold"),
        Err("Item not found in inventory".to_string())
    );
    assert_eq!(smith.remove_item_from_player_inventory("alice", "Ore"), Ok(()));
    assert!(smith.get_player_inventory_contents("alice").unwrap().is_empty());
    assert_eq!(
        smith.remove_item_from_player_inventory("bob", "Ore"),
        Err("Player inventory not found".to_string())
    );
}

#[test]
fn transfer_moves_one_item() {
    let smith = RecipeSmith::new();
    let mut from = PlayerInventory::new(2);
    let mut to = PlayerInventory::new(1);
    from.add_item(1, item("Coin"));
    assert_eq!(smith.transfer_item(&mut from, &mut to, "Coin"), Ok(()));
    assert!(from.get_item(1).is_none());
    assert_eq!(to.get_item(0).unwrap().name, "Coin");
}

#[test]
fn transfer_errors() {
    let smith = RecipeSmith::new();
    let mut from = PlayerInventory::new(1);
    let mut to = PlayerInventory::new(1);
    assert_eq!(
        smith.transfer_item(&mut from, &mut to, "Coin"),
        Err("Item not found in source inventory".to_string())
    );
    from.add_item(0, item("Coin"));
    to.add_item(0, item("Gem"));
    assert_eq!(
        smith.transfer_item(&mut from, &mut to, "Coin"),
        Err("Destination inventory is full".to_string())
    );
    assert_eq!(from.get_item(0).unwrap().name, "Coin");
    assert_eq!(to.get_item(0).unwrap().name, "Gem");
}

#[test]
fn storage_access_notice() {
    let smith = RecipeSmith::new();
    let c = smith.create_storage_container(6);
    let notice = smith.access_storage_container(&c, "alice");
    assert_eq!(notice.event_type, "storage_container_accessed");
    assert_eq!(notice.player_id, "alice");
    assert_eq!(notice.container_uuid, c.uuid);
}

#[test]
fn initialization_adds_recipes_once() {
    let mut smith = RecipeSmith::new();
    let bread = Recipe {
        name: "Bread".to_string(),
        ingredients: vec![Ingredient { name: "Flour".to_string(), quantity: 1, recipe_craftable: true }],
        outcome: "Loaf".to_string(),
        crafters: vec![Crafter { name: "Oven".to_string() }],
        base_cook_time: 10,
        cook_count: 0,
    };
    assert!(smith.initialize_recipe_smith(vec![bread]));
    assert!(smith.is_initialized());
    assert!(!smith.initialize_recipe_smith(Vec::new()));
    let all = smith.get_all_recipes();
    assert_eq!(all.len(), 1);
    assert_eq!(all[0].name, "Bread");
    let oven = smith.get_recipes_by_crafter("Oven");
    assert_eq!(oven.len(), 1);
    smith.add_new_recipe(Recipe {
        name: "Toast".to_string(),
        ingredients: Vec::new(),
        outcome: "Toast".to_string(),
        crafters: vec![Crafter { name: "Oven".to_string() }],
        base_cook_time: 1,
        cook_count: 0,
    });
    assert_eq!(smith.get_all_recipes().len(), 2);
    assert_eq!(smith.get_recipes_by_crafter("Oven").len(), 2);
}

#[test]
fn custom_event_messages() {
    assert_eq!(custom_event_message("recipe_learned"), Some("RecipeSmith: New recipe learned!".to_string()));
    assert_eq!(custom_event_message("item_crafted"), Some("RecipeSmith: Item crafted!".to_string()));
    assert_eq!(
        custom_event_message("storage_container_accessed"),
        Some("RecipeSmith: Storage container accessed!".to_string())
    );
    assert_eq!(custom_event_message("unknown"), None);
}
