use vstd::prelude::*;

verus! {

/// Connection settings of the database.
#[derive(Debug, Clone, PartialEq, Eq)]
pub struct Database {
    pub url: String,
    pub max_connections: u32,
}

/// The typed configuration of the application. A value exists only with
/// every field present.
#[derive(Debug, Clone, PartialEq, Eq)]
pub struct AppConfig {
    pub host: String,
    pub port: i32,
    pub auth_token: String,
    pub database: Database,
}

/// The mathematical value of a [`Database`].
pub struct DatabaseView {
    pub url: Seq<char>,
    pub max_connections: int,
}

/// The mathematical value of an [`AppConfig`].
pub struct AppConfigView {
    pub host: Seq<char>,
    pub port: int,
    pub auth_token: Seq<char>,
    pub database: DatabaseView,
}

impl View for Database {
    type V = DatabaseView;

    open spec fn view(&self) -> DatabaseView {
        DatabaseView { url: self.url@, max_connections: self.max_connections as int }
    }
}

impl View for AppConfig {
    type V = AppConfigView;

    open spec fn view(&self) -> AppConfigView {
        AppConfigView {
            host: self.host@,
            port: self.port as int,
            auth_token: self.auth_token@,
            database: self.database@,
        }
    }
}

} // verus!
