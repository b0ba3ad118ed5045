use tzh::config::{
    Config, ConfigUpdate, PartialConfig, CONFIG_DIR_NAME, CONFIG_FILE_NAME, DEFAULT_ENDPOINT,
    DEFAULT_MAX_TOKENS, DEFAULT_MODEL, DEFAULT_TEMPERATURE, DEFAULT_TIMEOUT,
};

fn nothing_stored() -> PartialConfig {
    PartialConfig {
        endpoint: None,
        api_key: None,
        model: None,
        timeout: None,
        temperature: None,
        max_tokens: None,
    }
}

fn no_update() -> ConfigUpdate {
    ConfigUpdate { endpoint: None, model: None, api_key: None, temperature: None, max_tokens: None }
}

#[test]
fn defaults() {
    let config = Config::default();
    assert_eq!(config.endpoint(), "https://api.deepseek.com/v1");
    assert_eq!(config.api_key(), None);
    assert_eq!(config.model(), "deepseek-chat");
    assert_eq!(config.timeout(), 30);
    assert_eq!(f32::from_bits(config.temperature()), 1.3f32);
    assert_eq!(config.max_tokens(), Some(2000));
    assert!(!config.has_api_key());
}

#[test]
fn default_constants() {
    assert_eq!(DEFAULT_ENDPOINT, "https://api.deepseek.com/v1");
    assert_eq!(DEFAULT_MODEL, "deepseek-chat");
    assert_eq!(DEFAULT_TIMEOUT, 30);
    assert_eq!(DEFAULT_TEMPERATURE, 1.3f32.to_bits());
    assert_eq!(DEFAULT_MAX_TOKENS, 2000);
    assert_eq!(CONFIG_DIR_NAME, "tzh");
    assert_eq!(CONFIG_FILE_NAME, "config.toml");
}

#[test]
fn load_without_a_stored_record_gives_the_defaults() {
    assert_eq!(Config::load(None), Config::default());
}

#[test]
fn load_fills_every_missing_field() {
    assert_eq!(Config::load(Some(nothing_stored())), Config::default());
}

#[test]
fn load_keeps_every_stored_field() {
    let stored = PartialConfig {
        endpoint: Some("http://localhost:8080/v1".to_string()),
        api_key: Some("k-123".to_string()),
        model: Some("local".to_string()),
        timeout: Some(5),
        temperature: Some(0.25f32.to_bits()),
        max_tokens: Some(64),
    };
    let config = Config::load(Some(stored));
    assert_eq!(config.endpoint(), "http://localhost:8080/v1");
    assert_eq!(config.api_key(), Some("k-123"));
    assert_eq!(config.model(), "local");
    assert_eq!(config.timeout(), 5);
    assert_eq!(f32::from_bits(config.temperature()), 0.25);
    assert_eq!(config.max_tokens(), Some(64));
}

#[test]
fn load_merges_field_by_field() {
    let stored = PartialConfig {
        model: Some("other".to_string()),
        timeout: Some(90),
        ..nothing_stored()
    };
    let config = Config::load(Some(stored));
    assert_eq!(config.endpoint(), "https://api.deepseek.com/v1");
    assert_eq!(config.api_key(), None);
    assert_eq!(config.model(), "other");
    assert_eq!(config.timeout(), 90);
    assert_eq!(config.temperature(), 1.3f32.to_bits());
    assert_eq!(config.max_tokens(), Some(2000));
}

#[test]
fn load_leaves_a_missing_api_key_missing() {
    let config = Config::load(Some(nothing_stored()));
    assert_eq!(config.api_key(), None);
    let stored = PartialConfig { api_key: Some(String::new()), ..nothing_stored() };
    assert_eq!(Config::load(Some(stored)).api_key(), Some(""));
}

#[test]
fn save_writes_every_field() {
    let stored = Config::default().save();
    assert_eq!(
        stored,
        PartialConfig {
            endpoint: Some("https://api.deepseek.com/v1".to_string()),
            api_key: None,
            model: Some("deepseek-chat".to_string()),
            timeout: Some(30),
            temperature: Some(1.3f32.to_bits()),
            max_tokens: Some(2000),
        }
    );
}

#[test]
fn saving_defaults_then_loading_yields_the_defaults() {
    let stored = Config::default().save();
    assert_eq!(Config::load(Some(stored)), Config::default());
}

#[test]
fn a_second_load_gives_the_same_record() {
    let stored = PartialConfig {
        api_key: Some("secret".to_string()),
        temperature: Some(0.7f32.to_bits()),
        ..nothing_stored()
    };
    let first = Config::load(Some(stored));
    let written = first.save();
    assert!(written.endpoint.is_some());
    assert!(written.model.is_some());
    assert!(written.timeout.is_some());
    assert!(written.temperature.is_some());
    assert!(written.max_tokens.is_some());
    let second = Config::load(Some(written));
    assert_eq!(second, first);
}

#[test]
fn a_configuration_without_token_limit_loads_with_the_default_limit() {
    let mut config = Config::default();
    config.set_max_tokens(None);
    assert_eq!(config.max_tokens(), None);
    let stored = config.save();
    assert_eq!(stored.max_tokens, None);
    assert_eq!(Config::load(Some(stored)).max_tokens(), Some(2000));
}

#[test]
fn setters_set_one_field_each() {
    let mut config = Config::default();
    config.set_endpoint("http://example.test/v1");
    assert_eq!(
        config,
        Config { endpoint: "http://example.test/v1".to_string(), ..Config::default() }
    );
    config.set_api_key("abc");
    assert_eq!(config.api_key(), Some("abc"));
    config.set_model("m2");
    assert_eq!(config.model(), "m2");
    config.set_temperature(2.0f32.to_bits());
    assert_eq!(config.temperature(), 0x4000_0000);
    config.set_max_tokens(Some(7));
    assert_eq!(
        config,
        Config {
            endpoint: "http://example.test/v1".to_string(),
            api_key: Some("abc".to_string()),
            model: "m2".to_string(),
            timeout: 30,
            temperature: 0x4000_0000,
            max_tokens: Some(7),
        }
    );
}

#[test]
fn has_api_key_needs_a_key_that_is_not_empty() {
    let mut config = Config::default();
    assert!(!config.has_api_key());
    config.set_api_key("");
    assert!(!config.has_api_key());
    config.set_api_key("k");
    assert!(config.has_api_key());
}

#[test]
fn setting_the_model_then_loading_reports_it() {
    let mut config = Config::load(None);
    config.apply(&ConfigUpdate { model: Some("X".to_string()), ..no_update() });
    let reloaded = Config::load(Some(config.save()));
    assert_eq!(reloaded.model(), "X");
    assert_eq!(reloaded, Config { model: "X".to_string(), ..Config::default() });
}

#[test]
fn apply_sets_temperature_and_max_tokens() {
    let mut config = Config::load(None);
    config.apply(&ConfigUpdate {
        temperature: Some(0.7f32.to_bits()),
        max_tokens: Some(500),
        ..no_update()
    });
    let reloaded = Config::load(Some(config.save()));
    assert_eq!(format!("Temperature: {}", f32::from_bits(reloaded.temperature())), "Temperature: 0.7");
    assert_eq!(reloaded.max_tokens(), Some(500));
    assert_eq!(reloaded.model(), "deepseek-chat");
}

#[test]
fn apply_without_max_tokens_keeps_the_stored_value() {
    let mut config = Config::load(None);
    config.apply(&ConfigUpdate { max_tokens: Some(500), ..no_update() });
    let mut later = Config::load(Some(config.save()));
    later.apply(&ConfigUpdate { temperature: Some(0.1f32.to_bits()), ..no_update() });
    assert_eq!(later.max_tokens(), Some(500));
    later.apply(&no_update());
    assert_eq!(later.max_tokens(), Some(500));
    assert_eq!(later.temperature(), 0.1f32.to_bits());
}

#[test]
fn apply_sets_every_field_it_holds() {
    let mut config = Config::default();
    config.apply(&ConfigUpdate {
        endpoint: Some("http://e".to_string()),
        model: Some("m".to_string()),
        api_key: Some("k".to_string()),
        temperature: Some(0),
        max_tokens: Some(1),
    });
    assert_eq!(
        config,
        Config {
            endpoint: "http://e".to_string(),
            api_key: Some("k".to_string()),
            model: "m".to_string(),
            timeout: 30,
            temperature: 0,
            max_tokens: Some(1),
        }
    );
}

#[test]
fn clone_copies_every_field() {
    let mut config = Config::default();
    config.set_api_key("k");
    config.set_max_tokens(None);
    let copy = config.clone();
    assert_eq!(copy, config);
}
