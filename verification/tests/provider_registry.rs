use agent_core::providers::{ProviderFactory, ProviderRegistry, RegistryError};

struct MockProvider;

struct MockFactory;

impl ProviderFactory for MockFactory {
    type Provider = MockProvider;

    fn name(&self) -> &str {
        "mock"
    }

    fn aliases(&self) -> Vec<String> {
        vec!["test-mock".to_string(), "fake".to_string()]
    }

    fn description(&self) -> &str {
        "A mock provider for testing"
    }

    fn create(&self, _api_key: &str, _base_url: Option<&str>) -> Result<MockProvider, String> {
        Ok(MockProvider)
    }
}

struct FailingFactory;

impl ProviderFactory for FailingFactory {
    type Provider = MockProvider;

    fn name(&self) -> &str {
        "broken"
    }

    fn aliases(&self) -> Vec<String> {
        Vec::new()
    }

    fn description(&self) -> &str {
        ""
    }

    fn create(&self, _api_key: &str, _base_url: Option<&str>) -> Result<MockProvider, String> {
        Err("no key".to_string())
    }
}

#[test]
fn empty_registry() {
    let registry: ProviderRegistry<MockFactory> = ProviderRegistry::new();
    assert_eq!(registry.count(), 0);
    assert!(registry.list_providers().is_empty());
    assert!(registry.get_factory("anything").is_none());
}

#[test]
fn register_and_lookup_by_name() {
    let mut registry = ProviderRegistry::new();
    registry.register(MockFactory);
    assert_eq!(registry.count(), 1);
    assert!(registry.get_factory("mock").is_some());
}

#[test]
fn lookup_by_alias() {
    let mut registry = ProviderRegistry::new();
    registry.register(MockFactory);
    assert!(registry.get_factory("test-mock").is_some());
    assert!(registry.get_factory("fake").is_some());
}

#[test]
fn lookup_case_insensitive() {
    let mut registry = ProviderRegistry::new();
    registry.register(MockFactory);
    assert!(registry.get_factory("MOCK").is_some());
    assert!(registry.get_factory("Test-Mock").is_some());
}

#[test]
fn unknown_provider_returns_none() {
    let mut registry = ProviderRegistry::new();
    registry.register(MockFactory);
    assert!(registry.get_factory("nonexistent").is_none());
}

#[test]
fn create_provider_success() {
    let mut registry = ProviderRegistry::new();
    registry.register(MockFactory);
    let provider = registry.create_provider("mock", "key", None);
    assert!(provider.is_ok());
}

#[test]
fn create_provider_unknown_fails() {
    let registry: ProviderRegistry<MockFactory> = ProviderRegistry::new();
    let result = registry.create_provider("nonexistent", "key", None);
    assert!(result.is_err());
    let err = match result {
        Err(e) => e,
        Ok(_) => panic!("expected an error"),
    };
    assert!(err.message().contains("Unknown provider"));
}

#[test]
fn list_providers_returns_info() {
    let mut registry = ProviderRegistry::new();
    registry.register(MockFactory);
    let providers = registry.list_providers();
    assert_eq!(providers.len(), 1);
    assert_eq!(providers[0].name, "mock");
    assert_eq!(providers[0].aliases.len(), 2);
    assert_eq!(providers[0].description, "A mock provider for testing");
}

#[test]
fn unknown_provider_message_names_it() {
    let registry: ProviderRegistry<MockFactory> = ProviderRegistry::new();
    match registry.create_provider("nonexistent", "key", None) {
        Err(e) => assert_eq!(e.message(), "Unknown provider: nonexistent"),
        Ok(_) => panic!("expected an error"),
    }
}

#[test]
fn factory_failure_is_reported() {
    let mut registry = ProviderRegistry::new();
    registry.register(FailingFactory);
    match registry.create_provider("BROKEN", "key", Some("http://localhost")) {
        Err(RegistryError::Factory(m)) => assert_eq!(m, "no key"),
        _ => panic!("expected the factory's error"),
    }
}

#[test]
fn alias_with_mixed_case_and_first_registration_wins() {
    let mut registry = ProviderRegistry::new();
    registry.register(MockFactory);
    registry.register(MockFactory);
    assert_eq!(registry.count(), 2);
    assert_eq!(registry.get_factory("FAKE").unwrap().name(), "mock");
    assert!(registry.get_factory("mock ").is_none());
}

struct NamedFactory {
    name: String,
    aliases: Vec<String>,
}

impl ProviderFactory for NamedFactory {
    type Provider = String;

    fn name(&self) -> &str {
        &self.name
    }

    fn aliases(&self) -> Vec<String> {
        self.aliases.clone()
    }

    fn description(&self) -> &str {
        ""
    }

    fn create(&self, api_key: &str, _base_url: Option<&str>) -> Result<String, String> {
        Ok(format!("{}:{}", self.name, api_key))
    }
}

#[test]
fn earlier_registration_wins_over_later_alias() {
    let mut registry = ProviderRegistry::new();
    registry.register(NamedFactory { name: "openai".to_string(), aliases: vec![] });
    registry.register(NamedFactory {
        name: "proxy".to_string(),
        aliases: vec!["OpenAI".to_string(), "gpt".to_string()],
    });
    assert_eq!(registry.get_factory("OPENAI").unwrap().name(), "openai");
    assert_eq!(registry.get_factory("Gpt").unwrap().name(), "proxy");
    assert_eq!(registry.create_provider("gpt", "k1", None).unwrap(), "proxy:k1");
    let listed = registry.list_providers();
    assert_eq!(listed[1].aliases, vec!["OpenAI".to_string(), "gpt".to_string()]);
    assert_eq!(listed[0].description, "");
}
