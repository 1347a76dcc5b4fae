use agent_core::memory::{MemoryFactory, MemoryRegistry};
use agent_core::providers::RegistryError;

struct MockMemory;

struct MockMemoryFactory;

impl MemoryFactory for MockMemoryFactory {
    type Memory = MockMemory;

    fn name(&self) -> &str {
        "mock"
    }

    fn description(&self) -> &str {
        "A mock memory backend"
    }

    fn requires_external(&self) -> bool {
        false
    }

    fn create(&self, _workspace_dir: &str, _api_key: Option<&str>) -> Result<MockMemory, String> {
        Ok(MockMemory)
    }
}

#[test]
fn registry_empty_registry() {
    let registry: MemoryRegistry<MockMemoryFactory> = MemoryRegistry::new();
    assert_eq!(registry.count(), 0);
    assert!(registry.list_backends().is_empty());
    assert!(registry.get_factory("anything").is_none());
}

#[test]
fn register_and_lookup() {
    let mut registry = MemoryRegistry::new();
    registry.register(MockMemoryFactory);
    assert_eq!(registry.count(), 1);
    assert!(registry.get_factory("mock").is_some());
}

#[test]
fn registry_lookup_case_insensitive() {
    let mut registry = MemoryRegistry::new();
    registry.register(MockMemoryFactory);
    assert!(registry.get_factory("MOCK").is_some());
    assert!(registry.get_factory("Mock").is_some());
}

#[test]
fn create_memory_success() {
    let mut registry = MemoryRegistry::new();
    registry.register(MockMemoryFactory);
    let mem = registry.create_memory("mock", "/tmp", None);
    assert!(mem.is_ok());
}

#[test]
fn create_memory_unknown_fails() {
    let registry: MemoryRegistry<MockMemoryFactory> = MemoryRegistry::new();
    let result = registry.create_memory("nonexistent", "/tmp", None);
    assert!(result.is_err());
    let err = match result {
        Err(e) => e,
        Ok(_) => panic!("expected an error"),
    };
    assert!(err.message().contains("Unknown memory backend"));
}

#[test]
fn list_backends_returns_info() {
    let mut registry = MemoryRegistry::new();
    registry.register(MockMemoryFactory);
    let backends = registry.list_backends();
    assert_eq!(backends.len(), 1);
    assert_eq!(backends[0].name, "mock");
    assert_eq!(backends[0].description, "A mock memory backend");
    assert!(!backends[0].requires_external);
}

#[test]
fn unknown_backend_error_names_it() {
    let registry: MemoryRegistry<MockMemoryFactory> = MemoryRegistry::new();
    match registry.create_memory("Redis", "/tmp", Some("k")) {
        Err(RegistryError::UnknownMemoryBackend(n)) => assert_eq!(n, "Redis"),
        _ => panic!("expected an unknown backend"),
    }
}

#[test]
fn memory_lookup_does_not_match_prefix() {
    let mut registry = MemoryRegistry::new();
    registry.register(MockMemoryFactory);
    assert!(registry.get_factory("moc").is_none());
    assert!(registry.get_factory("mockk").is_none());
}

struct NamedBackend {
    name: String,
    description: String,
}

impl MemoryFactory for NamedBackend {
    type Memory = String;

    fn name(&self) -> &str {
        &self.name
    }

    fn description(&self) -> &str {
        &self.description
    }

    fn requires_external(&self) -> bool {
        true
    }

    fn create(&self, workspace_dir: &str, api_key: Option<&str>) -> Result<String, String> {
        match api_key {
            Some(k) => Ok(format!("{}@{}:{}", self.description, workspace_dir, k)),
            None => Err(format!("{} needs a key", self.name)),
        }
    }
}

#[test]
fn earlier_backend_wins_and_gets_the_arguments() {
    let mut registry = MemoryRegistry::new();
    registry.register(NamedBackend { name: "pg".to_string(), description: "first".to_string() });
    registry.register(NamedBackend { name: "PG".to_string(), description: "second".to_string() });
    assert_eq!(registry.get_factory("Pg").unwrap().description(), "first");
    assert_eq!(
        registry.create_memory("pg", "/work", Some("k1")).ok(),
        Some("first@/work:k1".to_string())
    );
    match registry.create_memory("PG", "/work", None) {
        Err(RegistryError::Factory(m)) => assert_eq!(m, "pg needs a key"),
        _ => panic!("expected the factory's error"),
    }
    let listed = registry.list_backends();
    assert_eq!(listed.len(), 2);
    assert_eq!(listed[1].name, "PG");
    assert!(listed[1].requires_external);
}

struct RenamableBackend {
    name: std::cell::RefCell<String>,
}

impl MemoryFactory for RenamableBackend {
    type Memory = MockMemory;

    fn name(&self) -> &str {
        // Leaked so the current name can be handed out by reference.
        Box::leak(self.name.borrow().clone().into_boxed_str())
    }

    fn description(&self) -> &str {
        ""
    }

    fn requires_external(&self) -> bool {
        false
    }

    fn create(&self, _workspace_dir: &str, _api_key: Option<&str>) -> Result<MockMemory, String> {
        Ok(MockMemory)
    }
}

#[test]
fn lookup_and_listing_ask_the_factory_each_time() {
    let mut registry = MemoryRegistry::new();
    registry.register(RenamableBackend { name: std::cell::RefCell::new("old".to_string()) });
    assert!(registry.get_factory("old").is_some());
    *registry.get_factory("old").unwrap().name.borrow_mut() = "new".to_string();
    assert!(registry.get_factory("old").is_none());
    assert!(registry.get_factory("NEW").is_some());
    assert_eq!(registry.list_backends()[0].name, "new");
}
