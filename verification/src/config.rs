//! Connection settings for the four backends, read from configuration
//! values that were loaded beforehand, and the connection URI of each.
use crate::decimal::{decimal, decimal_chars, parse_u16, parse_u16_chars};
use crate::error::PipelineError;
use crate::text::{chars_of, push_chars, strip_trailing, strip_trailing_chars};
use vstd::prelude::*;
use vstd::string::StringExecFns;

verus! {

/// The configuration values as plain text: names with their values, in the
/// order in which they were loaded.
pub type VarsView = Seq<(Seq<char>, Seq<char>)>;

/// The value of the first entry named `name`, if there is one.
pub open spec fn lookup(vars: VarsView, name: Seq<char>) -> Option<Seq<char>>
    decreases vars.len(),
{
    if vars.len() == 0 {
        None
    } else if vars[0].0 == name {
        Some(vars[0].1)
    } else {
        lookup(vars.drop_first(), name)
    }
}

/// What is said when the value `name` is absent.
pub open spec fn missing_note(name: Seq<char>) -> Seq<char> {
    name + " in env not found"@
}

/// What is said when the value `name` is no port number.
pub open spec fn bad_port_note(name: Seq<char>) -> Seq<char> {
    name + " must be a valid u16 number"@
}

/// The value `name`, or the note that it is absent.
pub open spec fn wanted_text(vars: VarsView, name: Seq<char>) -> Result<Seq<char>, Seq<char>> {
    match lookup(vars, name) {
        Some(value) => Ok(value),
        None => Err(missing_note(name)),
    }
}

/// The value `name` read as a port number, or the note that it is absent
/// or no such number.
pub open spec fn wanted_port(vars: VarsView, name: Seq<char>) -> Result<u16, Seq<char>> {
    match lookup(vars, name) {
        Some(value) => match parse_u16(value) {
            Some(port) => Ok(port),
            None => Err(bad_port_note(name)),
        },
        None => Err(missing_note(name)),
    }
}

/// One loaded configuration value.
#[derive(Debug)]
pub struct EnvVar {
    pub name: String,
    pub value: String,
}

/// The configuration values that were loaded at start. Where a name occurs
/// twice, the earlier entry counts.
#[derive(Debug)]
pub struct Environment {
    pub vars: Vec<EnvVar>,
}

impl View for Environment {
    type V = VarsView;

    open spec fn view(&self) -> VarsView {
        Seq::new(self.vars@.len(), |i: int| (self.vars@[i].name@, self.vars@[i].value@))
    }
}

impl Environment {
    /// No value at all.
    pub fn new() -> (env: Environment)
        ensures
            env@ == VarsView::empty(),
    {
        let env = Environment { vars: Vec::new() };
        assert(env@ =~= VarsView::empty());
        env
    }

    /// Adds an entry behind those that are there.
    pub fn push(&mut self, name: String, value: String)
        ensures
            final(self)@ == old(self)@.push((name@, value@)),
    {
        self.vars.push(EnvVar { name, value });
        assert(final(self)@ =~= old(self)@.push((name@, value@)));
    }

    /// The value of the first entry named `name`, if there is one.
    pub fn get(&self, name: &str) -> (r: Option<&String>)
        ensures
            match r {
                Some(value) => lookup(self@, name@) == Some(value@),
                None => lookup(self@, name@) is None,
            },
    {
        let key = String::from_str(name);
        let n = self.vars.len();
        let mut i: usize = 0;
        assert(self@.skip(0) == self@);
        while i < n
            invariant
                i <= n == self.vars.len(),
                key@ == name@,
                lookup(self@, name@) == lookup(self@.skip(i as int), name@),
            decreases n - i,
        {
            assert(self@.skip(i as int).drop_first() == self@.skip(i + 1));
            if self.vars[i].name == key {
                return Some(&self.vars[i].value);
            }
            i += 1;
        }
        None
    }

    /// The value `name`, or the failure that says it is absent.
    pub fn require(&self, name: &str) -> (r: Result<String, PipelineError>)
        ensures
            match r {
                Ok(value) => wanted_text(self@, name@) == Ok::<Seq<char>, Seq<char>>(value@),
                Err(e) => e is Configuration && wanted_text(self@, name@) == Err::<
                    Seq<char>,
                    Seq<char>,
                >(e->Configuration_0@),
            },
    {
        match self.get(name) {
            Some(value) => Ok(value.clone()),
            None => {
                let mut note = String::from_str(name);
                note.append(" in env not found");
                Err(PipelineError::Configuration(note))
            },
        }
    }

    /// The value `name` read as a port number, or the failure that says
    /// it is absent or no such number.
    pub fn require_port(&self, name: &str) -> (r: Result<u16, PipelineError>)
        ensures
            match r {
                Ok(port) => wanted_port(self@, name@) == Ok::<u16, Seq<char>>(port),
                Err(e) => e is Configuration && wanted_port(self@, name@) == Err::<u16, Seq<char>>(
                    e->Configuration_0@,
                ),
            },
    {
        match self.get(name) {
            Some(value) => {
                let digits = chars_of(value.as_str());
                match parse_u16_chars(&digits) {
                    Some(port) => Ok(port),
                    None => {
                        let mut note = String::from_str(name);
                        note.append(" must be a valid u16 number");
                        Err(PipelineError::Configuration(note))
                    },
                }
            },
            None => {
                let mut note = String::from_str(name);
                note.append(" in env not found");
                Err(PipelineError::Configuration(note))
            },
        }
    }
}

/// The settings of a server backend, as plain values.
pub struct ServerView {
    pub username: Seq<char>,
    pub password: Seq<char>,
    pub host: Seq<char>,
    pub port: u16,
    pub db_name: Seq<char>,
}

/// The settings of a file backend, as plain values.
pub struct FileView {
    pub db_dir: Seq<char>,
    pub db_name: Seq<char>,
}

/// The URI of a server backend: scheme, credentials, host, port, database.
pub open spec fn server_url(scheme: Seq<char>, v: ServerView) -> Seq<char> {
    scheme + "://"@ + v.username + ":"@ + v.password + "@"@ + v.host + ":"@ + decimal(
        v.port as nat,
    ) + "/"@ + v.db_name
}

/// The URI of a file backend: the directory without its trailing slashes,
/// one slash, the file name.
pub open spec fn file_url(v: FileView) -> Seq<char> {
    "sqlite://"@ + strip_trailing(v.db_dir, '/') + "/"@ + v.db_name
}

/// Appends the URI of a server backend to `out`.
fn push_server_url(
    out: &mut String,
    username: &String,
    password: &String,
    host: &String,
    port: u16,
    db_name: &String,
)
    ensures
        final(out)@ == server_url(
            old(out)@,
            ServerView {
                username: username@,
                password: password@,
                host: host@,
                port,
                db_name: db_name@,
            },
        ),
{
    out.append("://");
    out.append(username.as_str());
    out.append(":");
    out.append(password.as_str());
    out.append("@");
    out.append(host.as_str());
    out.append(":");
    let digits = decimal_chars(port as u64);
    push_chars(out, &digits);
    out.append("/");
    out.append(db_name.as_str());
}

/// Anything that can say at which URI its database is reached.
pub trait DbLoadConfigTrait {
    /// The connection URI, as text.
    spec fn url(&self) -> Seq<char>;

    /// The connection URI.
    fn get_url(&self) -> (s: String)
        ensures
            s@ == self.url(),
    ;
}

/// Settings of a MySQL server.
#[derive(Debug)]
pub struct MysqlConfig {
    pub username: String,
    pub password: String,
    pub port: u16,
    pub db_name: String,
    pub ip_address: String,
}

/// Settings of a MariaDB server.
#[derive(Debug)]
pub struct MariaDbConfig {
    pub username: String,
    pub password: String,
    pub host: String,
    pub port: u16,
    pub db_name: String,
}

/// Settings of a PostgreSQL server.
#[derive(Debug)]
pub struct PostgresConfig {
    pub username: String,
    pub password: String,
    pub host: String,
    pub port: u16,
    pub db_name: String,
}

/// Settings of an SQLite database file.
#[derive(Debug)]
pub struct SqliteConfig {
    pub db_dir: String,
    pub db_name: String,
}

impl View for MysqlConfig {
    type V = ServerView;

    open spec fn view(&self) -> ServerView {
        ServerView {
            username: self.username@,
            password: self.password@,
            host: self.ip_address@,
            port: self.port,
            db_name: self.db_name@,
        }
    }
}

impl View for MariaDbConfig {
    type V = ServerView;

    open spec fn view(&self) -> ServerView {
        ServerView {
            username: self.username@,
            password: self.password@,
            host: self.host@,
            port: self.port,
            db_name: self.db_name@,
        }
    }
}

impl View for PostgresConfig {
    type V = ServerView;

    open spec fn view(&self) -> ServerView {
        ServerView {
            username: self.username@,
            password: self.password@,
            host: self.host@,
            port: self.port,
            db_name: self.db_name@,
        }
    }
}

impl View for SqliteConfig {
    type V = FileView;

    open spec fn view(&self) -> FileView {
        FileView { db_dir: self.db_dir@, db_name: self.db_name@ }
    }
}

/// The MySQL settings that the values give: user, password, port, database
/// and address, asked for in this order; the first that is absent or bad
/// decides the note.
pub open spec fn mysql_settings(vars: VarsView) -> Result<ServerView, Seq<char>> {
    match wanted_text(vars, "MYSQL_USERNAME"@) {
        Err(note) => Err(note),
        Ok(username) => match wanted_text(vars, "MYSQL_PASSWORD"@) {
            Err(note) => Err(note),
            Ok(password) => match wanted_port(vars, "MYSQL_PORT"@) {
                Err(note) => Err(note),
                Ok(port) => match wanted_text(vars, "MYSQL_DB_NAME"@) {
                    Err(note) => Err(note),
                    Ok(db_name) => match wanted_text(vars, "MYSQL_IP_ADDRESS"@) {
                        Err(note) => Err(note),
                        Ok(host) => Ok(ServerView { username, password, host, port, db_name }),
                    },
                },
            },
        },
    }
}

/// The MariaDB settings that the values give: user, password, host, port
/// and database, asked for in this order.
pub open spec fn mariadb_settings(vars: VarsView) -> Result<ServerView, Seq<char>> {
    match wanted_text(vars, "MARIADB_USERNAME"@) {
        Err(note) => Err(note),
        Ok(username) => match wanted_text(vars, "MARIADB_PASSWORD"@) {
            Err(note) => Err(note),
            Ok(password) => match wanted_text(vars, "MARIADB_HOST"@) {
                Err(note) => Err(note),
                Ok(host) => match wanted_port(vars, "MARIADB_PORT"@) {
                    Err(note) => Err(note),
                    Ok(port) => match wanted_text(vars, "MARIADB_DB_NAME"@) {
                        Err(note) => Err(note),
                        Ok(db_name) => Ok(ServerView { username, password, host, port, db_name }),
                    },
                },
            },
        },
    }
}

/// The PostgreSQL settings that the values give: user, password, host,
/// port and database, asked for in this order.
pub open spec fn postgres_settings(vars: VarsView) -> Result<ServerView, Seq<char>> {
    match wanted_text(vars, "POSTGRES_USERNAME"@) {
        Err(note) => Err(note),
        Ok(username) => match wanted_text(vars, "POSTGRES_PASSWORD"@) {
            Err(note) => Err(note),
            Ok(password) => match wanted_text(vars, "POSTGRES_HOST"@) {
                Err(note) => Err(note),
                Ok(host) => match wanted_port(vars, "POSTGRES_PORT"@) {
                    Err(note) => Err(note),
                    Ok(port) => match wanted_text(vars, "POSTGRES_DB_NAME"@) {
                        Err(note) => Err(note),
                        Ok(db_name) => Ok(ServerView { username, password, host, port, db_name }),
                    },
                },
            },
        },
    }
}

/// The SQLite settings that the values give: directory, then file name.
pub open spec fn sqlite_settings(vars: VarsView) -> Result<FileView, Seq<char>> {
    match wanted_text(vars, "SQLITE_DB_DIR"@) {
        Err(note) => Err(note),
        Ok(db_dir) => match wanted_text(vars, "SQLITE_DB_NAME"@) {
            Err(note) => Err(note),
            Ok(db_name) => Ok(FileView { db_dir, db_name }),
        },
    }
}

impl MysqlConfig {
    /// Reads the MySQL settings from the loaded values.
    pub fn inject_env(env: &Environment) -> (r: Result<MysqlConfig, PipelineError>)
        ensures
            match r {
                Ok(c) => mysql_settings(env@) == Ok::<ServerView, Seq<char>>(c@),
                Err(e) => e is Configuration && mysql_settings(env@) == Err::<
                    ServerView,
                    Seq<char>,
                >(e->Configuration_0@),
            },
    {
        let username = match env.require("MYSQL_USERNAME") {
            Ok(v) => v,
            Err(e) => { return Err(e); },
        };
        let password = match env.require("MYSQL_PASSWORD") {
            Ok(v) => v,
            Err(e) => { return Err(e); },
        };
        let port = match env.require_port("MYSQL_PORT") {
            Ok(v) => v,
            Err(e) => { return Err(e); },
        };
        let db_name = match env.require("MYSQL_DB_NAME") {
            Ok(v) => v,
            Err(e) => { return Err(e); },
        };
        let ip_address = match env.require("MYSQL_IP_ADDRESS") {
            Ok(v) => v,
            Err(e) => { return Err(e); },
        };
        Ok(MysqlConfig { username, password, port, db_name, ip_address })
    }
}

impl DbLoadConfigTrait for MysqlConfig {
    open spec fn url(&self) -> Seq<char> {
        server_url("mysql"@, self@)
    }

    fn get_url(&self) -> (s: String) {
        let mut out = String::from_str("mysql");
        push_server_url(
            &mut out,
            &self.username,
            &self.password,
            &self.ip_address,
            self.port,
            &self.db_name,
        );
        out
    }
}

impl MariaDbConfig {
    /// Reads the MariaDB settings from the loaded values.
    pub fn inject_env(env: &Environment) -> (r: Result<MariaDbConfig, PipelineError>)
        ensures
            match r {
                Ok(c) => mariadb_settings(env@) == Ok::<ServerView, Seq<char>>(c@),
                Err(e) => e is Configuration && mariadb_settings(env@) == Err::<
                    ServerView,
                    Seq<char>,
                >(e->Configuration_0@),
            },
    {
        let username = match env.require("MARIADB_USERNAME") {
            Ok(v) => v,
            Err(e) => { return Err(e); },
        };
        let password = match env.require("MARIADB_PASSWORD") {
            Ok(v) => v,
            Err(e) => { return Err(e); },
        };
        let host = match env.require("MARIADB_HOST") {
            Ok(v) => v,
            Err(e) => { return Err(e); },
        };
        let port = match env.require_port("MARIADB_PORT") {
            Ok(v) => v,
            Err(e) => { return Err(e); },
        };
        let db_name = match env.require("MARIADB_DB_NAME") {
            Ok(v) => v,
            Err(e) => { return Err(e); },
        };
        Ok(MariaDbConfig { username, password, host, port, db_name })
    }
}

impl DbLoadConfigTrait for MariaDbConfig {
    open spec fn url(&self) -> Seq<char> {
        server_url("mysql"@, self@)
    }

    fn get_url(&self) -> (s: String) {
        let mut out = String::from_str("mysql");
        push_server_url(
            &mut out,
            &self.username,
            &self.password,
            &self.host,
            self.port,
            &self.db_name,
        );
        out
    }
}

impl PostgresConfig {
    /// Reads the PostgreSQL settings from the loaded values.
    pub fn inject_env(env: &Environment) -> (r: Result<PostgresConfig, PipelineError>)
        ensures
            match r {
                Ok(c) => postgres_settings(env@) == Ok::<ServerView, Seq<char>>(c@),
                Err(e) => e is Configuration && postgres_settings(env@) == Err::<
                    ServerView,
                    Seq<char>,
                >(e->Configuration_0@),
            },
    {
        let username = match env.require("POSTGRES_USERNAME") {
            Ok(v) => v,
            Err(e) => { return Err(e); },
        };
        let password = match env.require("POSTGRES_PASSWORD") {
            Ok(v) => v,
            Err(e) => { return Err(e); },
        };
        let host = match env.require("POSTGRES_HOST") {
            Ok(v) => v,
            Err(e) => { return Err(e); },
        };
        let port = match env.require_port("POSTGRES_PORT") {
            Ok(v) => v,
            Err(e) => { return Err(e); },
        };
        let db_name = match env.require("POSTGRES_DB_NAME") {
            Ok(v) => v,
            Err(e) => { return Err(e); },
        };
        Ok(PostgresConfig { username, password, host, port, db_name })
    }
}

impl DbLoadConfigTrait for PostgresConfig {
    open spec fn url(&self) -> Seq<char> {
        server_url("postgres"@, self@)
    }

    fn get_url(&self) -> (s: String) {
        let mut out = String::from_str("postgres");
        push_server_url(
            &mut out,
            &self.username,
            &self.password,
            &self.host,
            self.port,
            &self.db_name,
        );
        out
    }
}

impl SqliteConfig {
    /// Reads the SQLite settings from the loaded values.
    pub fn inject_env(env: &Environment) -> (r: Result<SqliteConfig, PipelineError>)
        ensures
            match r {
                Ok(c) => sqlite_settings(env@) == Ok::<FileView, Seq<char>>(c@),
                Err(e) => e is Configuration && sqlite_settings(env@) == Err::<FileView, Seq<char>>(
                    e->Configuration_0@,
                ),
            },
    {
        let db_dir = match env.require("SQLITE_DB_DIR") {
            Ok(v) => v,
            Err(e) => { return Err(e); },
        };
        let db_name = match env.require("SQLITE_DB_NAME") {
            Ok(v) => v,
            Err(e) => { return Err(e); },
        };
        Ok(SqliteConfig { db_dir, db_name })
    }
}

impl DbLoadConfigTrait for SqliteConfig {
    open spec fn url(&self) -> Seq<char> {
        file_url(self@)
    }

    fn get_url(&self) -> (s: String) {
        let mut out = String::from_str("sqlite://");
        let dir = chars_of(self.db_dir.as_str());
        let stem = strip_trailing_chars(&dir, '/');
        push_chars(&mut out, &stem);
        out.append("/");
        out.append(self.db_name.as_str());
        out
    }
}

/// The database URL on which the pipeline itself works.
#[derive(Debug)]
pub struct DatabaseConfig {
    pub db_url: String,
}

impl DatabaseConfig {
    /// Reads `DATABASE_URL` from the loaded values.
    pub fn inject_from_env(env: &Environment) -> (r: Result<DatabaseConfig, PipelineError>)
        ensures
            match r {
                Ok(c) => wanted_text(env@, "DATABASE_URL"@) == Ok::<Seq<char>, Seq<char>>(c.db_url@),
                Err(e) => e is Configuration && wanted_text(env@, "DATABASE_URL"@) == Err::<
                    Seq<char>,
                    Seq<char>,
                >(e->Configuration_0@),
            },
    {
        match env.require("DATABASE_URL") {
            Ok(db_url) => Ok(DatabaseConfig { db_url }),
            Err(e) => Err(e),
        }
    }
}

/// Which backend to configure.
#[derive(Clone, Copy, Debug, PartialEq, Eq, Structural)]
pub enum DbConfig {
    MYSQL,
    MARIADB,
    SQLITE,
    POSTGRES,
}

/// The settings of one backend.
#[derive(Debug)]
pub enum ConnectionConfig {
    Mysql(MysqlConfig),
    MariaDb(MariaDbConfig),
    Postgres(PostgresConfig),
    Sqlite(SqliteConfig),
}

/// The settings of one backend, as plain values.
pub enum ConfigView {
    Mysql(ServerView),
    MariaDb(ServerView),
    Postgres(ServerView),
    Sqlite(FileView),
}

impl View for ConnectionConfig {
    type V = ConfigView;

    open spec fn view(&self) -> ConfigView {
        match self {
            ConnectionConfig::Mysql(c) => ConfigView::Mysql(c@),
            ConnectionConfig::MariaDb(c) => ConfigView::MariaDb(c@),
            ConnectionConfig::Postgres(c) => ConfigView::Postgres(c@),
            ConnectionConfig::Sqlite(c) => ConfigView::Sqlite(c@),
        }
    }
}

/// The scheme under which a backend is reached. MySQL and MariaDB share
/// one.
pub open spec fn scheme_of(kind: DbConfig) -> Seq<char> {
    match kind {
        DbConfig::MYSQL => "mysql"@,
        DbConfig::MARIADB => "mysql"@,
        DbConfig::POSTGRES => "postgres"@,
        DbConfig::SQLITE => "sqlite"@,
    }
}

/// The backend that a set of settings is for.
pub open spec fn kind_of(c: ConfigView) -> DbConfig {
    match c {
        ConfigView::Mysql(_) => DbConfig::MYSQL,
        ConfigView::MariaDb(_) => DbConfig::MARIADB,
        ConfigView::Postgres(_) => DbConfig::POSTGRES,
        ConfigView::Sqlite(_) => DbConfig::SQLITE,
    }
}

/// The connection URI of a set of settings.
pub open spec fn config_url(c: ConfigView) -> Seq<char> {
    match c {
        ConfigView::Mysql(v) => server_url("mysql"@, v),
        ConfigView::MariaDb(v) => server_url("mysql"@, v),
        ConfigView::Postgres(v) => server_url("postgres"@, v),
        ConfigView::Sqlite(v) => file_url(v),
    }
}

/// The settings of the backend `kind` that the values give, or the note
/// that says which value is absent or bad.
pub open spec fn settings_of(kind: DbConfig, vars: VarsView) -> Result<ConfigView, Seq<char>> {
    match kind {
        DbConfig::MYSQL => match mysql_settings(vars) {
            Ok(v) => Ok(ConfigView::Mysql(v)),
            Err(note) => Err(note),
        },
        DbConfig::MARIADB => match mariadb_settings(vars) {
            Ok(v) => Ok(ConfigView::MariaDb(v)),
            Err(note) => Err(note),
        },
        DbConfig::POSTGRES => match postgres_settings(vars) {
            Ok(v) => Ok(ConfigView::Postgres(v)),
            Err(note) => Err(note),
        },
        DbConfig::SQLITE => match sqlite_settings(vars) {
            Ok(v) => Ok(ConfigView::Sqlite(v)),
            Err(note) => Err(note),
        },
    }
}

/// The URI of every backend starts with its scheme, a colon and two
/// slashes.
pub proof fn lemma_url_starts_with_scheme(c: ConfigView)
    ensures
        (scheme_of(kind_of(c)) + "://"@).is_prefix_of(config_url(c)),
{
    reveal_strlit("sqlite://");
    reveal_strlit("sqlite");
    reveal_strlit("://");
    let head = scheme_of(kind_of(c)) + "://"@;
    let url = config_url(c);
    assert("sqlite"@ + "://"@ =~= "sqlite://"@);
    assert(url.subrange(0, head.len() as int) =~= head);
}

impl DbLoadConfigTrait for ConnectionConfig {
    open spec fn url(&self) -> Seq<char> {
        config_url(self@)
    }

    fn get_url(&self) -> (s: String) {
        match self {
            ConnectionConfig::Mysql(c) => c.get_url(),
            ConnectionConfig::MariaDb(c) => c.get_url(),
            ConnectionConfig::Postgres(c) => c.get_url(),
            ConnectionConfig::Sqlite(c) => c.get_url(),
        }
    }
}

/// Picks the settings of one backend out of the loaded values.
pub struct DatabaseFactory {}

impl DatabaseFactory {
    /// The settings of the backend `db_type`, or a `Configuration` failure
    /// whose message names the first value that is absent or bad.
    pub fn get_database_config(db_type: DbConfig, env: &Environment) -> (r: Result<
        ConnectionConfig,
        PipelineError,
    >)
        ensures
            match r {
                Ok(c) => settings_of(db_type, env@) == Ok::<ConfigView, Seq<char>>(c@) && kind_of(
                    c@,
                ) == db_type,
                Err(e) => e is Configuration && settings_of(db_type, env@) == Err::<
                    ConfigView,
                    Seq<char>,
                >(e->Configuration_0@),
            },
    {
        match db_type {
            DbConfig::MYSQL => match MysqlConfig::inject_env(env) {
                Ok(c) => Ok(ConnectionConfig::Mysql(c)),
                Err(e) => Err(e),
            },
            DbConfig::MARIADB => match MariaDbConfig::inject_env(env) {
                Ok(c) => Ok(ConnectionConfig::MariaDb(c)),
                Err(e) => Err(e),
            },
            DbConfig::POSTGRES => match PostgresConfig::inject_env(env) {
                Ok(c) => Ok(ConnectionConfig::Postgres(c)),
                Err(e) => Err(e),
            },
            DbConfig::SQLITE => match SqliteConfig::inject_env(env) {
                Ok(c) => Ok(ConnectionConfig::Sqlite(c)),
                Err(e) => Err(e),
            },
        }
    }
}

} // verus!
