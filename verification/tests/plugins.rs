use agent_core::plugins::{DefaultPluginApi, Plugin, PluginApi, PluginInfo, PluginRegistry};

struct TestHook;

impl TestHook {
    fn name(&self) -> &str {
        "test-hook"
    }
}

struct TestTool;

struct TestFactory;

struct TestPlugin;

impl Plugin for TestPlugin {
    type Tool = TestTool;
    type Hook = TestHook;
    type Factory = TestFactory;

    fn id(&self) -> &str {
        "test-plugin"
    }
    fn name(&self) -> &str {
        "Test Plugin"
    }
    fn version(&self) -> &str {
        "1.0.0"
    }
    fn description(&self) -> &str {
        "A test plugin"
    }

    fn register<A: PluginApi<Tool = TestTool, Hook = TestHook, Factory = TestFactory>>(
        &self,
        api: &mut A,
    ) -> Result<(), String> {
        api.register_hook(TestHook);
        Ok(())
    }

    fn activate(&self) -> Result<(), String> {
        Ok(())
    }
}

struct FailingPlugin;

impl Plugin for FailingPlugin {
    type Tool = TestTool;
    type Hook = TestHook;
    type Factory = TestFactory;

    fn id(&self) -> &str {
        "failing"
    }
    fn name(&self) -> &str {
        "Failing"
    }
    fn version(&self) -> &str {
        "0.0.1"
    }
    fn description(&self) -> &str {
        "fails"
    }

    fn register<A: PluginApi<Tool = TestTool, Hook = TestHook, Factory = TestFactory>>(
        &self,
        _api: &mut A,
    ) -> Result<(), String> {
        Err("cannot register".to_string())
    }

    fn activate(&self) -> Result<(), String> {
        Err("cannot activate".to_string())
    }
}

#[test]
fn mod_empty_registry() {
    let registry: PluginRegistry<TestPlugin> = PluginRegistry::new();
    assert_eq!(registry.count(), 0);
    assert!(registry.list_plugins().is_empty());
}

#[test]
fn register_and_list() {
    let mut registry = PluginRegistry::new();
    registry.register(TestPlugin);
    assert_eq!(registry.count(), 1);
    let plugins = registry.list_plugins();
    assert_eq!(plugins[0].id, "test-plugin");
    assert_eq!(plugins[0].name, "Test Plugin");
    assert_eq!(plugins[0].version, "1.0.0");
}

#[test]
fn run_registration_collects_hooks() {
    let mut registry = PluginRegistry::new();
    registry.register(TestPlugin);
    let mut api = registry.run_registration().unwrap();
    let hooks = api.take_hooks();
    assert_eq!(hooks.len(), 1);
    assert_eq!(hooks[0].name(), "test-hook");
}

#[test]
fn activate_all_succeeds() {
    let mut registry = PluginRegistry::new();
    registry.register(TestPlugin);
    assert!(registry.activate_all().is_ok());
}

#[test]
fn with_defaults_creates_empty() {
    let registry: PluginRegistry<TestPlugin> = PluginRegistry::with_defaults();
    // No built-in plugins registered yet
    assert_eq!(registry.count(), 0);
}

#[test]
fn default_plugin_api_empty() {
    let mut api: DefaultPluginApi<TestTool, TestHook, TestFactory> = DefaultPluginApi::new();
    assert!(api.take_tools().is_empty());
    assert!(api.take_hooks().is_empty());
    assert!(api.take_provider_factories().is_empty());
}

#[test]
fn plugin_info_debug() {
    let info = PluginInfo {
        id: "test".to_string(),
        name: "Test".to_string(),
        version: "1.0.0".to_string(),
        description: "A test plugin".to_string(),
    };
    let debug = format!("{info:?}");
    assert!(debug.contains("test"));
    assert!(debug.contains("1.0.0"));
}

#[test]
fn registration_failure_is_returned() {
    let mut registry = PluginRegistry::new();
    registry.register(FailingPlugin);
    match registry.run_registration() {
        Err(e) => assert_eq!(e, "cannot register"),
        Ok(_) => panic!("expected the plugin's error"),
    }
    assert_eq!(registry.activate_all(), Err("cannot activate".to_string()));
}

#[test]
fn take_leaves_nothing_behind() {
    let mut api: DefaultPluginApi<TestTool, TestHook, TestFactory> = DefaultPluginApi::new();
    api.register_tool(TestTool);
    api.register_tool(TestTool);
    api.register_provider_factory(TestFactory);
    assert_eq!(api.take_tools().len(), 2);
    assert!(api.take_tools().is_empty());
    assert_eq!(api.take_provider_factories().len(), 1);
    assert!(api.take_hooks().is_empty());
}

#[test]
fn registration_with_no_plugins_is_empty() {
    let registry: PluginRegistry<TestPlugin> = PluginRegistry::new();
    let mut api = registry.run_registration().unwrap();
    assert!(api.take_tools().is_empty());
    assert!(api.take_hooks().is_empty());
    assert!(api.take_provider_factories().is_empty());
}

enum Either {
    Good(TestPlugin),
    Bad(FailingPlugin),
}

impl Plugin for Either {
    type Tool = TestTool;
    type Hook = TestHook;
    type Factory = TestFactory;

    fn id(&self) -> &str {
        match self {
            Either::Good(p) => p.id(),
            Either::Bad(p) => p.id(),
        }
    }
    fn name(&self) -> &str {
        match self {
            Either::Good(p) => p.name(),
            Either::Bad(p) => p.name(),
        }
    }
    fn version(&self) -> &str {
        match self {
            Either::Good(p) => p.version(),
            Either::Bad(p) => p.version(),
        }
    }
    fn description(&self) -> &str {
        match self {
            Either::Good(p) => p.description(),
            Either::Bad(p) => p.description(),
        }
    }
    fn register<A: PluginApi<Tool = TestTool, Hook = TestHook, Factory = TestFactory>>(
        &self,
        api: &mut A,
    ) -> Result<(), String> {
        match self {
            Either::Good(p) => p.register(api),
            Either::Bad(p) => p.register(api),
        }
    }
    fn activate(&self) -> Result<(), String> {
        match self {
            Either::Good(p) => p.activate(),
            Either::Bad(p) => p.activate(),
        }
    }
}

#[test]
fn registration_collects_in_order_and_stops_at_first_failure() {
    let mut registry = PluginRegistry::new();
    registry.register(Either::Good(TestPlugin));
    registry.register(Either::Good(TestPlugin));
    let mut api = registry.run_registration().unwrap();
    assert_eq!(api.take_hooks().len(), 2);
    assert!(registry.activate_all().is_ok());

    registry.register(Either::Bad(FailingPlugin));
    registry.register(Either::Good(TestPlugin));
    assert_eq!(registry.run_registration().err(), Some("cannot register".to_string()));
    assert_eq!(registry.activate_all(), Err("cannot activate".to_string()));
    let listed = registry.list_plugins();
    assert_eq!(listed.len(), 4);
    assert_eq!(listed[2].id, "failing");
    assert_eq!(listed[2].description, "fails");
}
