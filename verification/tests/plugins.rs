use horizon::plugin_manager::Version;
use horizon::plugins::horizon_link::{EventMetadata, HorizonLinkPlugin, LinkDelivery, MetadataStore};
use horizon::plugins::pebble_vault::{
    failure_message, invalid_parameters_message, player_custom_data, PebbleVaultPlugin, VaultRpc,
};
use horizon::plugins::test_plugin::{Plugin_API, TestPlugin};
use horizon::plugins::unit_test::{GameEvent, UnitTestPlugin};
use horizon::plugins::{
    english, french, greek, horizon_core, horizon_link, pebble_vault, spanish, stars_beyond, unit_test,
    unreal_engine,
};

fn version_bits(id: u128) -> (u128, u128) {
    ((id >> 76) & 0xf, (id >> 62) & 0x3)
}

#[test]
fn language_plugins_greet() {
    assert_eq!(english::PLUGIN_METADATA.name(), "English");
    assert_eq!(english::PLUGIN_METADATA.get_instance().say_hello(), "Hello World!");
    assert_eq!(french::PLUGIN_METADATA.name(), "français");
    assert_eq!(french::PLUGIN_METADATA.get_instance().say_hello(), "Bonjour, tout le monde");
    assert_eq!(greek::PLUGIN_METADATA.name(), "ελληνικά");
    assert_eq!(greek::PLUGIN_METADATA.get_instance().say_hello(), "Γεια σε όλους");
    assert_eq!(spanish::PLUGIN_METADATA.name(), "español");
    assert_eq!(spanish::PLUGIN_METADATA.get_instance().say_hello(), "¡Hola a todos!");
    assert_eq!(horizon_core::PLUGIN_METADATA.name(), "Horizon Core");
    assert_eq!(horizon_core::PLUGIN_METADATA.get_instance().say_hello(), "Hello World!");
}

#[test]
fn test_plugin_answers() {
    assert_eq!(TestPlugin::new().thing(), "Hello from specific plugin implementation!");
}

#[test]
fn unreal_engine_plugin() {
    let p = unreal_engine::get_plugin();
    assert_eq!(p.name(), "Stars Beyond");
    assert_eq!(p.say_hello(), "Ready for Unreal Engine Integration!");
    let m = unreal_engine::get_plugin_metadata();
    assert_eq!(m.name, "Unreal Engine");
    assert_eq!(m.version, "5.4.1");
    assert_eq!(m.api_version, Version { major: 0, minor: 1, hotfix: 0 });
}

#[test]
fn pebble_vault_plugin() {
    assert_eq!(pebble_vault::plugin_name(), "PebbleVault");
    let data = player_custom_data("42");
    assert_eq!(data.name, "Player_42");
    assert_eq!(data.value, 0);
    let m = pebble_vault::get_plugin_metadata();
    assert_eq!(m.description, "A spatial database and object management system for game worlds");
    let p = PebbleVaultPlugin::new();
    assert_eq!(p.get_name(), "PebbleVault");
    assert_eq!(version_bits(p.get_id()), (4, 2));
    assert_eq!(p.call_rpc("query_region"), Some(VaultRpc::QueryRegion));
    assert_eq!(p.call_rpc("persist_to_disk"), Some(VaultRpc::PersistToDisk));
    assert_eq!(p.call_rpc("drop_everything"), None);
}

#[test]
fn pebble_vault_registration_replaces() {
    let mut p = PebbleVaultPlugin::new();
    p.register_rpc("query_region", VaultRpc::GetObject);
    assert_eq!(p.call_rpc("query_region"), Some(VaultRpc::GetObject));
    p.register_rpc("extra", VaultRpc::AddObject);
    assert_eq!(p.call_rpc("extra"), Some(VaultRpc::AddObject));
}

#[test]
fn pebble_vault_messages() {
    assert_eq!(
        failure_message(VaultRpc::CreateOrLoadRegion, "disk full"),
        "Failed to create or load region: disk full"
    );
    assert_eq!(failure_message(VaultRpc::PersistToDisk, "x"), "Failed to persist to disk: x");
    assert_eq!(invalid_parameters_message(VaultRpc::TransferPlayer), "Invalid parameters for transfer_player");
}

#[test]
fn horizon_link_listens_and_delivers() {
    let mut link = horizon_link::get_plugin();
    assert_eq!(link.get_name(), "Horizon Link");
    assert_eq!(link.plugin_name(), "Horizon Link");
    assert_eq!(link.say_hello(), "Preparing to link all the things...");
    assert_eq!(version_bits(link.get_id()), (4, 2));
    assert!(matches!(link.process_event("ping", None), LinkDelivery::NoHandler));
    assert!(link.call_rpc("listen", Some(("ping", 7))));
    assert!(!link.call_rpc("shout", Some(("pong", 8))));
    assert!(matches!(link.process_event("pong", None), LinkDelivery::NoHandler));
    assert!(matches!(link.process_event("ping", None), LinkDelivery::NotRelayed));
    let meta = EventMetadata { name: "ping".to_string(), origin: vec![1, -2, 3], propagation: 10 };
    match link.process_event("ping", Some(&meta)) {
        LinkDelivery::Deliver { handler, report } => {
            assert_eq!(handler, 7);
            assert_eq!(report[1], "  Event Name:   ping");
        }
        _ => panic!("expected a delivery"),
    }
    link.rpc_listen("ping", 9);
    match link.process_event("ping", Some(&meta)) {
        LinkDelivery::Deliver { handler, .. } => assert_eq!(handler, 9),
        _ => panic!("expected a delivery"),
    }
}

#[test]
fn metadata_report_lines() {
    let store = MetadataStore::new();
    let meta = EventMetadata { name: "quake".to_string(), origin: vec![-5, 0, 12], propagation: -3 };
    let lines = store.store_metadata(&meta);
    assert_eq!(
        lines,
        vec![
            "Intercepted Event Meta!".to_string(),
            "  Event Name:   quake".to_string(),
            "  Event Origin: X:-5 y:0 z:12".to_string(),
            "  Event Distance: -3".to_string(),
            "-------------------------- End Event Data -------------------------".to_string(),
        ]
    );
    let _ = HorizonLinkPlugin::new();
}

#[test]
fn stars_beyond_plugin() {
    let p = stars_beyond::get_plugin();
    assert_eq!(p.name(), "Stars Beyond");
    assert!(p.say_hello().starts_with("Calculating shortest path to universal domination..."));
    assert!(p.say_hello().ends_with("Hello from RecipeSmith! Ready to craft some amazing items?"));
    let m = stars_beyond::get_plugin_metadata();
    assert_eq!(m.version, "1.0.0");
}

fn names_of(e: &GameEvent) -> String {
    match e {
        GameEvent::PlayerJoined(p) => format!("joined {}", p),
        GameEvent::PlayerLeft(p) => format!("left {}", p),
        GameEvent::ChatMessage { sender, content } => format!("chat {} {}", sender, content),
        GameEvent::PlayerMoved(p) => format!("moved {}", p),
        GameEvent::Custom { event_type, data } => format!("custom {} {}", event_type, data),
    }
}

#[test]
fn simulation_steps_follow_draws() {
    let mut sim = UnitTestPlugin::new(2);
    assert_eq!(names_of(&sim.next_event(0, false, 0, 4)), "joined Player0");
    assert_eq!(names_of(&sim.next_event(1, true, 0, 0)), "joined Player1");
    // full: the spawn draw no longer adds players
    assert_eq!(names_of(&sim.next_event(2, true, 1, 1)), "chat Player1 Random message 2");
    assert_eq!(names_of(&sim.next_event(3, false, 0, 3)), "custom custom_event_3 Custom data 3");
    assert_eq!(names_of(&sim.next_event(4, false, 0, 2)), "moved Player0");
    // two of two players: more than half, so one leaves
    assert_eq!(names_of(&sim.next_event(5, false, 0, 0)), "left Player0");
    // one of two: not more than half, so the draw moves the player instead
    assert_eq!(names_of(&sim.next_event(6, false, 0, 0)), "moved Player1");
    assert_eq!(names_of(&sim.next_event(7, false, 0, 4)), "moved Player1");
}

#[test]
fn simulations_number_events_from_the_shared_counter() {
    let mut a = UnitTestPlugin::new(4);
    let mut b = UnitTestPlugin::new(4);
    assert_eq!(names_of(&a.next_event(0, false, 0, 0)), "joined Player0");
    assert_eq!(names_of(&b.next_event(1, false, 0, 0)), "joined Player1");
    assert_eq!(names_of(&a.next_event(u64::MAX, false, 0, 3)), format!("custom custom_event_{0} Custom data {0}", u64::MAX));
}

#[test]
fn random_simulation_stays_within_capacity() {
    let mut sim = unit_test::get_plugin(3);
    assert_eq!(names_of(&sim.generate_random_event(0)), "joined Player0");
    let mut active: Vec<String> = vec!["Player0".to_string()];
    for count in 1..500u64 {
        match sim.generate_random_event(count) {
            GameEvent::PlayerJoined(p) => {
                assert_eq!(p, format!("Player{}", count));
                active.push(p)
            }
            GameEvent::PlayerLeft(p) => {
                let i = active.iter().position(|x| *x == p).expect("a player in the game left");
                active.remove(i);
            }
            GameEvent::ChatMessage { sender, content } => {
                assert!(active.contains(&sender));
                assert_eq!(content, format!("Random message {}", count));
            }
            GameEvent::PlayerMoved(p) => assert!(active.contains(&p)),
            GameEvent::Custom { event_type, .. } => assert_eq!(event_type, format!("custom_event_{}", count)),
        }
        assert!(!active.is_empty() && active.len() <= 3);
    }
}

#[test]
fn unit_test_plugin_texts() {
    let sim = UnitTestPlugin::new(12);
    assert_eq!(sim.say_hello(), "Hello from UnitTestPlugin! Simulating events for up to 12 players.");
    assert_eq!(sim.name(), "UnitTestPlugin");
    let m = unit_test::get_plugin_metadata();
    assert_eq!(m.name, "UnitTestPlugin");
    assert_eq!(m.description, "A plugin for simulating player events and testing plugin interactions");
}

#[test]
fn plugin_constructors() {
    let vault = pebble_vault::get_plugin();
    assert_eq!(vault.get_name(), "PebbleVault");
    assert_eq!(vault.call_rpc("add_object"), Some(VaultRpc::AddObject));
    let smith = horizon::recipe_smith::create_plugin_metadata();
    assert_eq!(smith.get_name(), "RecipeSmith");
    assert!(!smith.is_initialized());
}

#[test]
fn relayed_events_reach_their_handler() {
    let mut link = HorizonLinkPlugin::new();
    link.rpc_listen("quake", 3);
    let meta = EventMetadata { name: "quake".to_string(), origin: vec![0, 0, 0], propagation: 1 };
    let (report, result) = link.relay_event("quake", Some((&meta, 41)), |h: u64, d: i32| -> Result<(), String> {
        if h == 3 && d == 41 { Err("handled".to_string()) } else { Ok(()) }
    });
    assert_eq!(report.len(), 5);
    assert_eq!(result, Err("handled".to_string()));
    let (report, result) = link.relay_event("other", Some((&meta, 41)), |_h: u64, _d: i32| -> Result<(), String> {
        Err("should not run".to_string())
    });
    assert!(report.is_empty());
    assert_eq!(result, Ok(()));
    let (report, result) =
        link.relay_event("quake", None::<(&EventMetadata, i32)>, |_h: u64, _d: i32| -> Result<(), String> {
            Err("should not run".to_string())
        });
    assert!(report.is_empty());
    assert_eq!(result, Ok(()));
}
