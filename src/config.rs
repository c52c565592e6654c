//! The configuration record and how it is resolved from an optional file.
//!
//! A missing file gives the built-in defaults. A file that is there must be
//! a TOML document with a `[server]` table holding an integer `port` that
//! fits in 16 bits and a `[database]` table holding a string `path`; other
//! keys are ignored.

use vstd::prelude::*;
use crate::toml_doc::{
    entry, integer_of, lookup, parse_table, error_text, parsed_table, str_of, table_of,
};

verus! {

/// The port used when no configuration file is present.
pub const DEFAULT_PORT: u16 = 11082;

/// The whole configuration of the backend.
#[derive(Debug, Clone, PartialEq, Eq)]
pub struct Config {
    pub server: Server,
    pub database: Database,
}

/// The `[server]` section.
#[derive(Debug, Clone, Copy, PartialEq, Eq)]
pub struct Server {
    pub port: u16,
}

/// The `[database]` section.
#[derive(Debug, Clone, PartialEq, Eq)]
pub struct Database {
    pub path: String,
}

/// What a configuration holds, as plain values.
pub struct ConfigView {
    pub port: u16,
    pub path: Seq<char>,
}

impl View for Config {
    type V = ConfigView;

    open spec fn view(&self) -> ConfigView {
        ConfigView { port: self.server.port, path: self.database.path@ }
    }
}

/// The store path used when no configuration file is present.
pub open spec fn default_path() -> Seq<char> {
    "data/rigotek_panel.db"@
}

/// The configuration used when no configuration file is present.
pub open spec fn default_config() -> ConfigView {
    ConfigView { port: DEFAULT_PORT, path: default_path() }
}

impl Default for Config {
    fn default() -> (r: Config)
        ensures
            r@ == default_config(),
    {
        Config {
            server: Server { port: DEFAULT_PORT },
            database: Database { path: String::from_str("data/rigotek_panel.db") },
        }
    }
}

/// The keys of the configuration file that the backend reads.
#[derive(Debug, Clone, Copy, PartialEq, Eq, Structural)]
pub enum ConfigKey {
    Server,
    Port,
    Database,
    Path,
}

/// The spelling of a key in the file.
pub open spec fn key_name(k: ConfigKey) -> Seq<char> {
    match k {
        ConfigKey::Server => "server"@,
        ConfigKey::Port => "port"@,
        ConfigKey::Database => "database"@,
        ConfigKey::Path => "path"@,
    }
}

impl ConfigKey {
    /// The spelling of this key in the file.
    pub fn name(&self) -> (r: &'static str)
        ensures
            r@ == key_name(*self),
    {
        match self {
            ConfigKey::Server => "server",
            ConfigKey::Port => "port",
            ConfigKey::Database => "database",
            ConfigKey::Path => "path",
        }
    }
}

/// A TOML document that does not have the shape of a configuration.
#[derive(Debug, Clone, Copy, PartialEq, Eq, Structural)]
pub enum SchemaError {
    /// The key is absent.
    Missing(ConfigKey),
    /// The key holds a value of the wrong kind.
    WrongType(ConfigKey),
    /// The port is an integer outside `0..=65535`.
    PortOutOfRange(i64),
}

/// Why no configuration could be resolved.
#[derive(Debug, Clone, PartialEq, Eq)]
pub enum ConfigError {
    /// The file exists but could not be read; the text describes why.
    Unreadable(String),
    /// The file is not a TOML document; the text is the parser's diagnostic.
    Syntax(String),
    /// The file is a TOML document of the wrong shape.
    Schema(SchemaError),
}

/// A configuration error, without the parser's diagnostic text.
pub enum ConfigFault {
    Unreadable(Seq<char>),
    Syntax,
    Schema(SchemaError),
}

impl View for ConfigError {
    type V = ConfigFault;

    open spec fn view(&self) -> ConfigFault {
        match self {
            ConfigError::Unreadable(m) => ConfigFault::Unreadable(m@),
            ConfigError::Syntax(_) => ConfigFault::Syntax,
            ConfigError::Schema(e) => ConfigFault::Schema(*e),
        }
    }
}

/// What an attempt to read the configuration file found.
#[derive(Debug, Clone, PartialEq, Eq)]
pub enum ConfigSource {
    /// There is no file.
    Absent,
    /// There is a file, but reading it failed; the text describes why.
    Unreadable(String),
    /// The file's contents.
    Text(String),
}

/// The table stored under `k` in `doc`.
pub open spec fn section_of(doc: toml::Table, k: ConfigKey) -> Result<toml::Table, SchemaError> {
    match entry(doc, key_name(k)) {
        None => Err(SchemaError::Missing(k)),
        Some(v) => match table_of(v) {
            Some(t) => Ok(t),
            None => Err(SchemaError::WrongType(k)),
        },
    }
}

/// The port stored in a `[server]` table.
pub open spec fn port_of(server: toml::Table) -> Result<u16, SchemaError> {
    match entry(server, key_name(ConfigKey::Port)) {
        None => Err(SchemaError::Missing(ConfigKey::Port)),
        Some(v) => match integer_of(v) {
            None => Err(SchemaError::WrongType(ConfigKey::Port)),
            Some(i) => if 0 <= i <= u16::MAX {
                Ok(i as u16)
            } else {
                Err(SchemaError::PortOutOfRange(i))
            },
        },
    }
}

/// The path stored in a `[database]` table.
pub open spec fn path_of(database: toml::Table) -> Result<Seq<char>, SchemaError> {
    match entry(database, key_name(ConfigKey::Path)) {
        None => Err(SchemaError::Missing(ConfigKey::Path)),
        Some(v) => match str_of(v) {
            None => Err(SchemaError::WrongType(ConfigKey::Path)),
            Some(s) => Ok(s),
        },
    }
}

/// The configuration that a parsed document describes; the `[server]`
/// section is examined before the `[database]` section.
pub open spec fn config_of_table(doc: toml::Table) -> Result<ConfigView, SchemaError> {
    match section_of(doc, ConfigKey::Server) {
        Err(e) => Err(e),
        Ok(server) => match port_of(server) {
            Err(e) => Err(e),
            Ok(port) => match section_of(doc, ConfigKey::Database) {
                Err(e) => Err(e),
                Ok(database) => match path_of(database) {
                    Err(e) => Err(e),
                    Ok(path) => Ok(ConfigView { port, path }),
                },
            },
        },
    }
}

/// The configuration that a file's text describes.
pub open spec fn config_of_text(text: Seq<char>) -> Result<ConfigView, ConfigFault> {
    match parsed_table(text) {
        None => Err(ConfigFault::Syntax),
        Some(doc) => match config_of_table(doc) {
            Ok(c) => Ok(c),
            Err(e) => Err(ConfigFault::Schema(e)),
        },
    }
}

/// The configuration that a read attempt leads to.
pub open spec fn config_of_source(src: ConfigSource) -> Result<ConfigView, ConfigFault> {
    match src {
        ConfigSource::Absent => Ok(default_config()),
        ConfigSource::Unreadable(m) => Err(ConfigFault::Unreadable(m@)),
        ConfigSource::Text(t) => config_of_text(t@),
    }
}

/// A resolution outcome, as plain values.
pub open spec fn outcome_view(r: Result<Config, ConfigError>) -> Result<ConfigView, ConfigFault> {
    match r {
        Ok(c) => Ok(c@),
        Err(e) => Err(e@),
    }
}

/// A schema check outcome, as plain values.
pub open spec fn schema_view(r: Result<Config, SchemaError>) -> Result<ConfigView, SchemaError> {
    match r {
        Ok(c) => Ok(c@),
        Err(e) => Err(e),
    }
}

/// The table stored under `k` in `doc`.
fn section<'a>(doc: &'a toml::Table, k: ConfigKey) -> (r: Result<&'a toml::Table, SchemaError>)
    ensures
        match r {
            Ok(t) => section_of(*doc, k) == Ok::<toml::Table, SchemaError>(*t),
            Err(e) => section_of(*doc, k) == Err::<toml::Table, SchemaError>(e),
        },
{
    match lookup(doc, k.name()) {
        None => Err(SchemaError::Missing(k)),
        Some(v) => match v.as_table() {
            Some(t) => Ok(t),
            None => Err(SchemaError::WrongType(k)),
        },
    }
}

impl Config {
    /// Reads a configuration out of a parsed TOML document.
    pub fn from_table(doc: &toml::Table) -> (r: Result<Config, SchemaError>)
        ensures
            schema_view(r) == config_of_table(*doc),
    {
        let server = match section(doc, ConfigKey::Server) {
            Ok(t) => t,
            Err(e) => return Err(e),
        };
        let port: u16 = match lookup(server, ConfigKey::Port.name()) {
            None => return Err(SchemaError::Missing(ConfigKey::Port)),
            Some(v) => match v.as_integer() {
                None => return Err(SchemaError::WrongType(ConfigKey::Port)),
                Some(i) => if 0 <= i && i <= u16::MAX as i64 {
                    i as u16
                } else {
                    return Err(SchemaError::PortOutOfRange(i));
                },
            },
        };
        let database = match section(doc, ConfigKey::Database) {
            Ok(t) => t,
            Err(e) => return Err(e),
        };
        let path = match lookup(database, ConfigKey::Path.name()) {
            None => return Err(SchemaError::Missing(ConfigKey::Path)),
            Some(v) => match v.as_str() {
                None => return Err(SchemaError::WrongType(ConfigKey::Path)),
                Some(s) => String::from_str(s),
            },
        };
        Ok(Config { server: Server { port }, database: Database { path } })
    }

    /// Reads a configuration out of the text of a configuration file.
    pub fn from_toml_str(text: &str) -> (r: Result<Config, ConfigError>)
        ensures
            outcome_view(r) == config_of_text(text@),
    {
        match parse_table(text) {
            Err(e) => Err(ConfigError::Syntax(error_text(&e))),
            Ok(doc) => match Config::from_table(&doc) {
                Ok(c) => Ok(c),
                Err(e) => Err(ConfigError::Schema(e)),
            },
        }
    }

    /// Resolves the configuration from what reading the file found: the
    /// defaults when there is no file, the file's values otherwise.
    pub fn resolve(src: ConfigSource) -> (r: Result<Config, ConfigError>)
        ensures
            outcome_view(r) == config_of_source(src),
    {
        match src {
            ConfigSource::Absent => Ok(Config::default()),
            ConfigSource::Unreadable(m) => Err(ConfigError::Unreadable(m)),
            ConfigSource::Text(t) => Config::from_toml_str(t.as_str()),
        }
    }
}

/// With no configuration file, the configuration is the built-in one.
pub proof fn lemma_absent_file_gives_defaults()
    ensures
        config_of_source(ConfigSource::Absent) == Ok::<ConfigView, ConfigFault>(default_config()),
        default_config().port == 11082,
        default_config().path == "data/rigotek_panel.db"@,
{
}

/// A file that parses, whose `[server]` table holds an integer `port` that
/// fits in 16 bits and whose `[database]` table holds a string `path`,
/// resolves to exactly that port and that path.
pub proof fn lemma_file_values_kept(
    text: Seq<char>,
    doc: toml::Table,
    server: toml::Table,
    database: toml::Table,
    port: i64,
    path: Seq<char>,
)
    requires
        parsed_table(text) == Some(doc),
        entry(doc, "server"@) matches Some(v) && table_of(v) == Some(server),
        entry(server, "port"@) matches Some(v) && integer_of(v) == Some(port),
        0 <= port <= u16::MAX,
        entry(doc, "database"@) matches Some(v) && table_of(v) == Some(database),
        entry(database, "path"@) matches Some(v) && str_of(v) == Some(path),
    ensures
        config_of_text(text) == Ok::<ConfigView, ConfigFault>(ConfigView { port: port as u16, path }),
{
}

} // verus!
