//! The database boundary: how the connection is addressed, and the
//! statements that a restore sends.

use vstd::prelude::*;
use crate::error::{ErrorView, RestoreError};
use crate::text::concat3;

verus! {

/// What a connection is made with.
#[derive(Debug, Clone, PartialEq, Eq)]
pub struct ConnectionSettings {
    pub user: String,
    pub password: String,
    pub host: String,
    pub port: String,
}

/// `ConnectionSettings` as plain values.
pub struct SettingsView {
    pub user: Seq<char>,
    pub password: Seq<char>,
    pub host: Seq<char>,
    pub port: Seq<char>,
}

impl View for ConnectionSettings {
    type V = SettingsView;

    open spec fn view(&self) -> SettingsView {
        SettingsView {
            user: self.user@,
            password: self.password@,
            host: self.host@,
            port: self.port@,
        }
    }
}

/// The value of an optional setting, or `default` where it is not set.
pub open spec fn or_default(value: Option<String>, default: Seq<char>) -> Seq<char> {
    match value {
        Some(v) => v@,
        None => default,
    }
}

/// The settings that the given values resolve to: the user as given, an
/// empty password, host 127.0.0.1 and port 3306 unless set otherwise.
pub open spec fn resolved(
    user: String,
    password: Option<String>,
    host: Option<String>,
    port: Option<String>,
) -> SettingsView {
    SettingsView {
        user: user@,
        password: or_default(password, Seq::empty()),
        host: or_default(host, "127.0.0.1"@),
        port: or_default(port, "3306"@),
    }
}

/// Who connects: the user, followed by `:` and the password where there is
/// one.
pub open spec fn auth_of(s: SettingsView) -> Seq<char> {
    if s.password.len() == 0 {
        s.user
    } else {
        s.user + ":"@ + s.password
    }
}

/// The address that the connection is opened with.
pub open spec fn url_of(s: SettingsView) -> Seq<char> {
    "mysql://"@ + auth_of(s) + "@"@ + s.host + ":"@ + s.port
}

/// The query that finds out whether a database named `db` exists.
pub open spec fn exists_query_of(db: Seq<char>) -> Seq<char> {
    "SELECT SCHEMA_NAME FROM INFORMATION_SCHEMA.SCHEMATA WHERE SCHEMA_NAME = '"@ + db + "'"@
}

/// The statement that creates the database `db` unless it exists.
pub open spec fn create_statement_of(db: Seq<char>) -> Seq<char> {
    "CREATE DATABASE IF NOT EXISTS `"@ + db + "`"@
}

/// The statement that makes `db` the database that statements act on.
pub open spec fn use_statement_of(db: Seq<char>) -> Seq<char> {
    "USE `"@ + db + "`"@
}

/// Resolves the settings of the connection from the values that the
/// environment supplies. The user is required; the others have defaults.
pub fn resolve_settings(
    user: Option<String>,
    password: Option<String>,
    host: Option<String>,
    port: Option<String>,
) -> (r: Result<ConnectionSettings, RestoreError>)
    ensures
        match r {
            Ok(s) => user is Some && s@ == resolved(user->0, password, host, port),
            Err(e) => user is None && e@ == (ErrorView::MissingCredential {
                variable: "MYSQL_USER"@,
            }),
        },
{
    let user = match user {
        Some(user) => user,
        None => {
            return Err(
                RestoreError::MissingCredential { variable: String::from_str("MYSQL_USER") },
            );
        },
    };
    let password = match password {
        Some(password) => password,
        None => String::new(),
    };
    let host = match host {
        Some(host) => host,
        None => String::from_str("127.0.0.1"),
    };
    let port = match port {
        Some(port) => port,
        None => String::from_str("3306"),
    };
    Ok(ConnectionSettings { user, password, host, port })
}

/// The address that the connection is opened with.
pub fn connection_url(settings: &ConnectionSettings) -> (url: String)
    ensures
        url@ == url_of(settings@),
{
    let mut url = String::from_str("mysql://");
    url.append(settings.user.as_str());
    if settings.password.as_str().unicode_len() != 0 {
        url.append(":");
        url.append(settings.password.as_str());
    }
    url.append("@");
    url.append(settings.host.as_str());
    url.append(":");
    url.append(settings.port.as_str());
    proof {
        let s = settings@;
        if s.password.len() == 0 {
            assert(url@ =~= "mysql://"@ + s.user + "@"@ + s.host + ":"@ + s.port);
        } else {
            assert(url@ =~= "mysql://"@ + (s.user + ":"@ + s.password) + "@"@ + s.host + ":"@
                + s.port);
        }
    }
    url
}

/// What a check of the connection does: it connects to `url` and sends
/// `statement`.
#[derive(Debug, Clone, PartialEq, Eq)]
pub struct ConnectionProbe {
    pub url: String,
    pub statement: String,
}

/// The check of the connection: a connection to the address of the
/// settings, and a statement that reads nothing and changes nothing.
pub fn test_connection(settings: &ConnectionSettings) -> (probe: ConnectionProbe)
    ensures
        probe.url@ == url_of(settings@),
        probe.statement@ == "SELECT 1"@,
{
    ConnectionProbe { url: connection_url(settings), statement: String::from_str("SELECT 1") }
}

/// The query that finds out whether a database named `db` exists.
pub fn exists_query(db: &str) -> (query: String)
    ensures
        query@ == exists_query_of(db@),
{
    concat3(
        "SELECT SCHEMA_NAME FROM INFORMATION_SCHEMA.SCHEMATA WHERE SCHEMA_NAME = '",
        db,
        "'",
    )
}

/// The statement that creates the database `db` unless it exists.
pub fn create_statement(db: &str) -> (statement: String)
    ensures
        statement@ == create_statement_of(db@),
{
    concat3("CREATE DATABASE IF NOT EXISTS `", db, "`")
}

/// The statement that makes `db` the database that statements act on.
pub fn use_statement(db: &str) -> (statement: String)
    ensures
        statement@ == use_statement_of(db@),
{
    concat3("USE `", db, "`")
}

} // verus!
