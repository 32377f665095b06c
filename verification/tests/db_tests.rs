use wxorca_agents::db::DbConfig;
use wxorca_agents::tools::search_docs::SearchDocsTool;

#[test]
fn test_db_config_default() {
    let config = DbConfig::default();
    assert_eq!(config.host, "localhost");
    assert_eq!(config.port, 8000);
    assert_eq!(config.namespace, "wxorca");
}

#[test]
fn test_db_config_url() {
    let config = DbConfig::default();
    assert_eq!(config.url(), "localhost:8000");
}

#[test]
fn default_config_is_the_local_store() {
    let config = DbConfig::default();
    assert_eq!(config.username, "root");
    assert_eq!(config.password, "root");
    assert_eq!(config.database, "main");
}

#[test]
fn config_takes_the_settings_that_are_there() {
    let config = DbConfig::from_settings(
        Some("db.example.com".to_string()),
        Some("9001".to_string()),
        None,
        Some("secret".to_string()),
        None,
        Some("other".to_string()),
    );
    assert_eq!(config.host, "db.example.com");
    assert_eq!(config.port, 9001);
    assert_eq!(config.username, "root");
    assert_eq!(config.password, "secret");
    assert_eq!(config.namespace, "wxorca");
    assert_eq!(config.database, "other");
    assert_eq!(config.url(), "db.example.com:9001");
    let config = DbConfig::from_settings(None, Some("port".to_string()), None, None, None, None);
    assert_eq!(config.url(), "localhost:8000");
    let config = DbConfig::from_settings(None, Some("70000".to_string()), None, None, None, None);
    assert_eq!(config.port, 8000);
}

#[test]
fn search_tool_takes_the_settings_that_are_there() {
    let tool = SearchDocsTool::from_settings(
        Some("h".to_string()),
        Some("1".to_string()),
        Some("u".to_string()),
        None,
    );
    assert_eq!(tool.db_host, "h");
    assert_eq!(tool.db_port, 1);
    assert_eq!(tool.db_user, "u");
    assert_eq!(tool.db_pass, "root");
    assert_eq!(tool.url(), "h:1");
    let tool = SearchDocsTool::default();
    assert_eq!(tool.url(), "localhost:8000");
}
