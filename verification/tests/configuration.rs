use container_use_mcp::configuration::{
    context_server_configuration, DEFAULT_SETTINGS, INSTALLATION_INSTRUCTIONS,
};
use container_use_mcp::ContextServerConfiguration;

#[test]
fn configuration_holds_the_embedded_texts_and_the_schema() {
    let schema = "{\"type\":\"object\"}".to_string();
    let configuration = context_server_configuration(Ok(schema.clone()));
    assert_eq!(
        configuration,
        Ok(Some(ContextServerConfiguration {
            installation_instructions: INSTALLATION_INSTRUCTIONS.to_string(),
            settings_schema: schema,
            default_settings: DEFAULT_SETTINGS.to_string(),
        }))
    );
}

#[test]
fn embedded_texts_are_not_empty() {
    let configuration = context_server_configuration(Ok(String::new())).unwrap().unwrap();
    assert!(!configuration.installation_instructions.is_empty());
    assert!(!configuration.default_settings.is_empty());
    assert_eq!(configuration.settings_schema, "");
}

#[test]
fn embedded_texts_speak_of_the_setting() {
    assert!(INSTALLATION_INSTRUCTIONS.starts_with("# Container Use\n"));
    assert!(INSTALLATION_INSTRUCTIONS.contains("`cu_path`"));
    assert!(DEFAULT_SETTINGS.starts_with("{\n"));
    assert!(DEFAULT_SETTINGS.ends_with("}\n"));
    assert!(DEFAULT_SETTINGS.contains("\"cu_path\""));
}

#[test]
fn schema_failure_is_handed_on() {
    assert_eq!(
        context_server_configuration(Err("key must be a string".to_string())),
        Err("key must be a string".to_string())
    );
}
