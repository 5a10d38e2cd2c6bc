use horizon::plugin_manager::{
    plugin_api_version, Plugin, PluginInstance, PluginManager, PluginMetadata, Pluginstate, Version,
};

struct TestPlugin {}

impl Plugin for TestPlugin {
    fn on_event(&mut self) {}
    fn hello(&self) {
        println!("Hello from testplugin!")
    }
}

fn test_instance() -> PluginInstance<TestPlugin> {
    PluginInstance {
        name: "TestPlugin".to_string(),
        version: Version { major: 0, minor: 1, hotfix: 0 },
        api_versin: plugin_api_version(),
        plugin: TestPlugin {},
    }
}

#[test]
fn load_plugin() {
    let mut manager: PluginManager<TestPlugin> = PluginManager::new();
    manager.load_plugin("TestPlugin", test_instance());
    assert!(manager.contains_plugin("TestPlugin"))
}

#[test]
fn disable_plugin() {
    let mut manager: PluginManager<TestPlugin> = PluginManager::new();
    // insert directly as active, as the manager does on load
    manager.load_plugin("TestPlugin", test_instance());
    manager.disable_plugin("TestPlugin");
    assert_eq!(manager.plugin_state("TestPlugin").unwrap(), Pluginstate::INACTIVE);
}

#[test]
fn unload_plugin() {
    let mut manager: PluginManager<TestPlugin> = PluginManager::new();
    manager.load_plugin("TestPlugin", test_instance());
    manager.unload_plugin("TestPlugin");
    assert_eq!(true, true) // are we still alive?
}

#[test]
fn loaded_plugin_is_active() {
    let mut manager: PluginManager<TestPlugin> = PluginManager::new();
    assert!(!manager.contains_plugin("TestPlugin"));
    assert_eq!(manager.plugin_state("TestPlugin"), None);
    manager.load_plugin("TestPlugin", test_instance());
    assert_eq!(manager.plugin_state("TestPlugin"), Some(Pluginstate::ACTIVE));
}

#[test]
fn reloading_makes_active_again() {
    let mut manager: PluginManager<TestPlugin> = PluginManager::new();
    manager.load_plugin("TestPlugin", test_instance());
    assert!(manager.disable_plugin("TestPlugin"));
    manager.load_plugin("TestPlugin", test_instance());
    assert_eq!(manager.plugin_state("TestPlugin"), Some(Pluginstate::ACTIVE));
    let plugins = manager.get_plugins();
    assert_eq!(plugins.len(), 1);
    assert_eq!(plugins[0].0, "TestPlugin");
}

#[test]
fn disabling_unknown_plugin_reports_it() {
    let mut manager: PluginManager<TestPlugin> = PluginManager::new();
    manager.load_plugin("TestPlugin", test_instance());
    assert!(!manager.disable_plugin("Other"));
    assert_eq!(manager.plugin_state("TestPlugin"), Some(Pluginstate::ACTIVE));
}

#[test]
fn unloading_keeps_plugins() {
    let mut manager: PluginManager<TestPlugin> = PluginManager::new();
    manager.load_plugin("TestPlugin", test_instance());
    assert!(manager.unload_plugin("TestPlugin"));
    assert!(!manager.unload_plugin("Other"));
    assert!(manager.contains_plugin("TestPlugin"));
    assert_eq!(manager.plugin_state("TestPlugin"), Some(Pluginstate::ACTIVE));
}

#[test]
fn manager_serves_api_version() {
    let manager: PluginManager<TestPlugin> = PluginManager::new();
    assert_eq!(manager.api_version(), Version { major: 0, minor: 1, hotfix: 0 });
    assert!(manager.get_plugins().is_empty());
}

#[test]
fn metadata_keeps_fields() {
    let m = PluginMetadata::new("A", "1.2.3", "desc", plugin_api_version());
    assert_eq!(m.name, "A");
    assert_eq!(m.version, "1.2.3");
    assert_eq!(m.description, "desc");
    assert_eq!(m.api_version, Version { major: 0, minor: 1, hotfix: 0 });
}
