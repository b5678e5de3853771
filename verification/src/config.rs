//! Where the database is and how to reach it.
//!
//! A `ConnectionPoolConfig` is made once at startup and never altered. The
//! initializer's driver turns it into the database driver's own options each
//! time it tries to open the pool.

use vstd::prelude::*;

verus! {

/// Keepalive interval of a database connection, in milliseconds, unless the
/// configuration names another: five minutes.
pub const DEFAULT_KEEPALIVE_MS: u32 = 300_000;

/// The configuration as a mathematical value.
pub struct ConnectionPoolConfigView {
    pub host: Seq<char>,
    pub database: Seq<char>,
    pub user: Seq<char>,
    pub password: Seq<char>,
    pub port: u16,
    pub keepalive_ms: u32,
}

/// Host, database, credentials, port and keepalive interval of the database.
/// It cannot be printed: it holds the password.
pub struct ConnectionPoolConfig {
    host: String,
    database: String,
    user: String,
    password: String,
    port: u16,
    keepalive_ms: u32,
}

impl View for ConnectionPoolConfig {
    type V = ConnectionPoolConfigView;

    closed spec fn view(&self) -> ConnectionPoolConfigView {
        ConnectionPoolConfigView {
            host: self.host@,
            database: self.database@,
            user: self.user@,
            password: self.password@,
            port: self.port,
            keepalive_ms: self.keepalive_ms,
        }
    }
}

/// The options of the database driver: opaque here, made by
/// `ConnectionPoolConfig::connect_options` and handed to the driver as they
/// are.
#[verifier::external_type_specification]
#[verifier::external_body]
pub struct ExOpts(mysql::Opts);

/// The options that `mysql::OptsBuilder` gives when a fresh builder is handed
/// this host, database name, user, password, keepalive interval and port, each
/// as `Some`, and nothing else. The builder starts from fixed defaults and
/// each setter stores what it is handed, so its options follow from these six
/// values alone.
pub uninterp spec fn built_opts(
    host: Seq<char>,
    database: Seq<char>,
    user: Seq<char>,
    password: Seq<char>,
    keepalive_ms: u32,
    port: u16,
) -> mysql::Opts;

/// Builds the driver's options with `mysql::OptsBuilder`: a fresh builder
/// (`OptsBuilder::new`), then `ip_or_hostname`, `db_name`, `user`, `pass`,
/// `tcp_keepalive_time_ms` and `tcp_port` are set from the arguments, and the
/// builder is turned into `mysql::Opts`. What is claimed is that the result is
/// the one that `built_opts` names for these arguments, and so depends on
/// nothing else. What the options hold cannot be looked into from here.
#[verifier::external_body]
fn build_opts(
    host: &str,
    database: &str,
    user: &str,
    password: &str,
    keepalive_ms: u32,
    port: u16,
) -> (opts: mysql::Opts)
    ensures
        opts == built_opts(host@, database@, user@, password@, keepalive_ms, port),
{
    let mut builder = mysql::OptsBuilder::new();
    builder
        .ip_or_hostname(Some(host))
        .db_name(Some(database))
        .user(Some(user))
        .pass(Some(password))
        .tcp_keepalive_time_ms(Some(keepalive_ms))
        .tcp_port(port);
    builder.into()
}

impl ConnectionPoolConfig {
    /// A configuration with the default keepalive interval.
    pub fn new(host: String, database: String, user: String, password: String, port: u16) -> (config:
        Self)
        ensures
            config@ == (ConnectionPoolConfigView {
                host: host@,
                database: database@,
                user: user@,
                password: password@,
                port,
                keepalive_ms: DEFAULT_KEEPALIVE_MS,
            }),
    {
        ConnectionPoolConfig {
            host,
            database,
            user,
            password,
            port,
            keepalive_ms: DEFAULT_KEEPALIVE_MS,
        }
    }

    /// The same configuration with another keepalive interval.
    pub fn with_keepalive_ms(self, keepalive_ms: u32) -> (config: Self)
        ensures
            config@ == (ConnectionPoolConfigView { keepalive_ms, ..self@ }),
    {
        ConnectionPoolConfig {
            host: self.host,
            database: self.database,
            user: self.user,
            password: self.password,
            port: self.port,
            keepalive_ms,
        }
    }

    /// The options to hand to the database driver for this configuration:
    /// those that the driver's builder gives for this host, database, user,
    /// password, keepalive interval and port, in this order and unaltered.
    pub fn connect_options(&self) -> (opts: mysql::Opts)
        ensures
            opts == built_opts(
                self@.host,
                self@.database,
                self@.user,
                self@.password,
                self@.keepalive_ms,
                self@.port,
            ),
    {
        build_opts(
            self.host.as_str(),
            self.database.as_str(),
            self.user.as_str(),
            self.password.as_str(),
            self.keepalive_ms,
            self.port,
        )
    }

    /// The host name or address of the database server.
    pub fn host(&self) -> (host: &str)
        ensures
            host@ == self@.host,
    {
        self.host.as_str()
    }

    /// The name of the database.
    pub fn database(&self) -> (database: &str)
        ensures
            database@ == self@.database,
    {
        self.database.as_str()
    }

    /// The user to log in as.
    pub fn user(&self) -> (user: &str)
        ensures
            user@ == self@.user,
    {
        self.user.as_str()
    }

    /// The password of that user.
    pub fn password(&self) -> (password: &str)
        ensures
            password@ == self@.password,
    {
        self.password.as_str()
    }

    /// The TCP port of the database server.
    pub fn port(&self) -> (port: u16)
        ensures
            port == self@.port,
    {
        self.port
    }

    /// The keepalive interval of a connection, in milliseconds.
    pub fn keepalive_ms(&self) -> (keepalive_ms: u32)
        ensures
            keepalive_ms == self@.keepalive_ms,
    {
        self.keepalive_ms
    }
}

} // verus!
