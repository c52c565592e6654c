use rigotek_panel::config::{Config, ConfigError, ConfigKey, ConfigSource, SchemaError, DEFAULT_PORT};

fn text(s: &str) -> ConfigSource {
    ConfigSource::Text(s.to_string())
}

#[test]
fn default_config_values() {
    let c = Config::default();
    assert_eq!(c.server.port, 11082);
    assert_eq!(DEFAULT_PORT, 11082);
    assert_eq!(c.database.path, "data/rigotek_panel.db");
}

#[test]
fn absent_file_gives_defaults() {
    let c = Config::resolve(ConfigSource::Absent).unwrap();
    assert_eq!(c.server.port, 11082);
    assert_eq!(c.database.path, "data/rigotek_panel.db");
    assert_eq!(c, Config::default());
}

#[test]
fn file_values_are_kept() {
    let c = Config::resolve(text("[server]\nport=9000\n[database]\npath=\"x.db\"")).unwrap();
    assert_eq!(c.server.port, 9000);
    assert_eq!(c.database.path, "x.db");
}

#[test]
fn file_values_are_kept_at_the_port_bounds() {
    let c = Config::from_toml_str("[server]\nport = 0\n[database]\npath = \"\"\n").unwrap();
    assert_eq!(c.server.port, 0);
    assert_eq!(c.database.path, "");
    let c = Config::from_toml_str("[server]\nport = 65535\n[database]\npath = 'a/b c.db'\n").unwrap();
    assert_eq!(c.server.port, 65535);
    assert_eq!(c.database.path, "a/b c.db");
}

#[test]
fn inline_tables_and_unknown_keys() {
    let src = "title = \"panel\"\nserver = { port = 8080, host = \"h\" }\ndatabase = { path = \"d.db\" }\n[extra]\nk = 1\n";
    let c = Config::from_toml_str(src).unwrap();
    assert_eq!(c.server.port, 8080);
    assert_eq!(c.database.path, "d.db");
}

#[test]
fn port_that_is_not_a_number() {
    let r = Config::from_toml_str("[server]\nport = \"not-a-number\"\n[database]\npath = \"x.db\"\n");
    assert_eq!(r, Err(ConfigError::Schema(SchemaError::WrongType(ConfigKey::Port))));
}

#[test]
fn port_out_of_range() {
    let r = Config::from_toml_str("[server]\nport = 70000\n[database]\npath = \"x.db\"\n");
    assert_eq!(r, Err(ConfigError::Schema(SchemaError::PortOutOfRange(70000))));
    let r = Config::from_toml_str("[server]\nport = -1\n[database]\npath = \"x.db\"\n");
    assert_eq!(r, Err(ConfigError::Schema(SchemaError::PortOutOfRange(-1))));
    let r = Config::from_toml_str("[server]\nport = 65536\n[database]\npath = \"x.db\"\n");
    assert_eq!(r, Err(ConfigError::Schema(SchemaError::PortOutOfRange(65536))));
}

#[test]
fn missing_sections_and_keys() {
    let r = Config::from_toml_str("[database]\npath = \"x.db\"\n");
    assert_eq!(r, Err(ConfigError::Schema(SchemaError::Missing(ConfigKey::Server))));
    let r = Config::from_toml_str("[server]\n[database]\npath = \"x.db\"\n");
    assert_eq!(r, Err(ConfigError::Schema(SchemaError::Missing(ConfigKey::Port))));
    let r = Config::from_toml_str("[server]\nport = 1\n");
    assert_eq!(r, Err(ConfigError::Schema(SchemaError::Missing(ConfigKey::Database))));
    let r = Config::from_toml_str("[server]\nport = 1\n[database]\n");
    assert_eq!(r, Err(ConfigError::Schema(SchemaError::Missing(ConfigKey::Path))));
    let r = Config::from_toml_str("");
    assert_eq!(r, Err(ConfigError::Schema(SchemaError::Missing(ConfigKey::Server))));
}

#[test]
fn values_of_the_wrong_kind() {
    let r = Config::from_toml_str("server = 5\n[database]\npath = \"x.db\"\n");
    assert_eq!(r, Err(ConfigError::Schema(SchemaError::WrongType(ConfigKey::Server))));
    let r = Config::from_toml_str("[server]\nport = 1\n[database]\npath = 3\n");
    assert_eq!(r, Err(ConfigError::Schema(SchemaError::WrongType(ConfigKey::Path))));
    let r = Config::from_toml_str("database = \"x\"\n[server]\nport = 1\n");
    assert_eq!(r, Err(ConfigError::Schema(SchemaError::WrongType(ConfigKey::Database))));
    let r = Config::from_toml_str("[server]\nport = 1.5\n[database]\npath = \"x.db\"\n");
    assert_eq!(r, Err(ConfigError::Schema(SchemaError::WrongType(ConfigKey::Port))));
}

#[test]
fn server_is_examined_before_database() {
    let r = Config::from_toml_str("[server]\nport = \"x\"\n[database]\npath = 3\n");
    assert_eq!(r, Err(ConfigError::Schema(SchemaError::WrongType(ConfigKey::Port))));
}

#[test]
fn text_that_is_not_toml() {
    match Config::resolve(text("[server\nport = = 1")) {
        Err(ConfigError::Syntax(msg)) => assert!(!msg.is_empty()),
        other => panic!("expected a syntax error, got {:?}", other),
    }
}

#[test]
fn unreadable_file_is_reported() {
    let r = Config::resolve(ConfigSource::Unreadable("permission denied".to_string()));
    assert_eq!(r, Err(ConfigError::Unreadable("permission denied".to_string())));
}

#[test]
fn from_table_reads_a_parsed_document() {
    let doc: toml::Table = "[server]\nport = 443\n[database]\npath = \"p.db\"\n".parse().unwrap();
    let c = Config::from_table(&doc).unwrap();
    assert_eq!(c.server.port, 443);
    assert_eq!(c.database.path, "p.db");
    let empty = toml::Table::new();
    assert_eq!(Config::from_table(&empty), Err(SchemaError::Missing(ConfigKey::Server)));
}

#[test]
fn key_spellings() {
    assert_eq!(ConfigKey::Server.name(), "server");
    assert_eq!(ConfigKey::Port.name(), "port");
    assert_eq!(ConfigKey::Database.name(), "database");
    assert_eq!(ConfigKey::Path.name(), "path");
}
