//! What the persistence layer needs from this library: the connection
//! settings of the document store.

use vstd::prelude::*;
use crate::text::{decimal, decimal_string, join2, port_or, read_port_or, text_or};
use vstd::string::StringExecFns;

verus! {

/// Configuration for the database connection.
#[derive(Debug, Clone)]
pub struct DbConfig {
    pub host: String,
    pub port: u16,
    pub username: String,
    pub password: String,
    pub namespace: String,
    pub database: String,
}

/// The mathematical value of a [`DbConfig`].
pub struct DbConfigView {
    pub host: Seq<char>,
    pub port: nat,
    pub username: Seq<char>,
    pub password: Seq<char>,
    pub namespace: Seq<char>,
    pub database: Seq<char>,
}

impl View for DbConfig {
    type V = DbConfigView;

    open spec fn view(&self) -> DbConfigView {
        DbConfigView {
            host: self.host@,
            port: self.port as nat,
            username: self.username@,
            password: self.password@,
            namespace: self.namespace@,
            database: self.database@,
        }
    }
}

/// The text of a setting, or the default where the setting is missing.
pub open spec fn setting(value: Option<String>, default: Seq<char>) -> Seq<char> {
    match value {
        Some(v) => v@,
        None => default,
    }
}

impl DbConfigView {
    /// The settings of a local store.
    pub open spec fn local() -> DbConfigView {
        DbConfigView {
            host: "localhost"@,
            port: 8000,
            username: "root"@,
            password: "root"@,
            namespace: "wxorca"@,
            database: "main"@,
        }
    }

    /// The connection URL: host, a colon, and the port in decimal.
    pub open spec fn url(self) -> Seq<char> {
        self.host + ":"@ + decimal(self.port)
    }
}

impl Default for DbConfig {
    fn default() -> (r: DbConfig)
        ensures
            r@ == DbConfigView::local(),
    {
        DbConfig {
            host: "localhost".to_string(),
            port: 8000,
            username: "root".to_string(),
            password: "root".to_string(),
            namespace: "wxorca".to_string(),
            database: "main".to_string(),
        }
    }
}

impl DbConfig {
    /// The configuration for the settings that an environment gives. A
    /// setting that is missing takes the value of a local store; so does a
    /// port that names no port number.
    pub fn from_settings(
        host: Option<String>,
        port: Option<String>,
        username: Option<String>,
        password: Option<String>,
        namespace: Option<String>,
        database: Option<String>,
    ) -> (r: DbConfig)
        ensures
            r@ == (DbConfigView {
                host: setting(host, "localhost"@),
                port: port_or(port, 8000) as nat,
                username: setting(username, "root"@),
                password: setting(password, "root"@),
                namespace: setting(namespace, "wxorca"@),
                database: setting(database, "main"@),
            }),
    {
        DbConfig {
            port: read_port_or(&port, 8000),
            host: text_or(host, "localhost"),
            username: text_or(username, "root"),
            password: text_or(password, "root"),
            namespace: text_or(namespace, "wxorca"),
            database: text_or(database, "main"),
        }
    }

    /// The connection URL.
    pub fn url(&self) -> (r: String)
        ensures
            r@ == self@.url(),
    {
        let mut r = join2(self.host.as_str(), ":");
        r.append(decimal_string(self.port as u64).as_str());
        r
    }
}

} // verus!
