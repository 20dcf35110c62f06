//! Application configuration: its default values, log levels and the
//! overrides taken from the environment.

use vstd::prelude::*;
use crate::error::Error;
use crate::text::{ascii_lower, is_ascii_text, join, lowercase_of, str_equal, to_lower};

verus! {

/// Database configuration.
pub struct DatabaseConfig {
    pub url: String,
    pub max_connections: u32,
    pub timeout_seconds: u64,
}

/// Application-specific configuration.
pub struct ApplicationConfig {
    pub name: String,
    pub version: String,
    pub log_level: LogLevel,
    pub data_dir: String,
}

/// Security configuration.
pub struct SecurityConfig {
    pub jwt_secret: String,
    pub token_expiry_hours: u64,
    pub hash_cost: u32,
}

/// Main application configuration.
pub struct AppConfig {
    pub database: DatabaseConfig,
    pub app: ApplicationConfig,
    pub security: SecurityConfig,
}

/// Log levels.
#[derive(Clone, Copy, Debug, PartialEq, Eq, Structural)]
pub enum LogLevel {
    Error,
    Warn,
    Info,
    Debug,
    Trace,
}

/// The configuration with its texts as character sequences.
pub struct AppConfigView {
    pub database_url: Seq<char>,
    pub max_connections: u32,
    pub timeout_seconds: u64,
    pub app_name: Seq<char>,
    pub version: Seq<char>,
    pub log_level: LogLevel,
    pub data_dir: Seq<char>,
    pub jwt_secret: Seq<char>,
    pub token_expiry_hours: u64,
    pub hash_cost: u32,
}

impl View for AppConfig {
    type V = AppConfigView;

    open spec fn view(&self) -> AppConfigView {
        AppConfigView {
            database_url: self.database.url@,
            max_connections: self.database.max_connections,
            timeout_seconds: self.database.timeout_seconds,
            app_name: self.app.name@,
            version: self.app.version@,
            log_level: self.app.log_level,
            data_dir: self.app.data_dir@,
            jwt_secret: self.security.jwt_secret@,
            token_expiry_hours: self.security.token_expiry_hours,
            hash_cost: self.security.hash_cost,
        }
    }
}

/// Values found in the environment that override the configuration:
/// `DATABASE_URL`, `DATABASE_MAX_CONNECTIONS`, `LOG_LEVEL`, `DATA_DIR` and
/// `JWT_SECRET`, each `None` when the variable is not set.
pub struct EnvOverrides {
    pub database_url: Option<String>,
    pub database_max_connections: Option<String>,
    pub log_level: Option<String>,
    pub data_dir: Option<String>,
    pub jwt_secret: Option<String>,
}

/// The overrides with their texts as character sequences.
pub struct EnvOverridesView {
    pub database_url: Option<Seq<char>>,
    pub database_max_connections: Option<Seq<char>>,
    pub log_level: Option<Seq<char>>,
    pub data_dir: Option<Seq<char>>,
    pub jwt_secret: Option<Seq<char>>,
}

impl View for EnvOverrides {
    type V = EnvOverridesView;

    open spec fn view(&self) -> EnvOverridesView {
        EnvOverridesView {
            database_url: self.database_url.deep_view(),
            database_max_connections: self.database_max_connections.deep_view(),
            log_level: self.log_level.deep_view(),
            data_dir: self.data_dir.deep_view(),
            jwt_secret: self.jwt_secret.deep_view(),
        }
    }
}

/// Whether `c` is an ASCII decimal digit.
pub open spec fn is_digit(c: char) -> bool {
    48 <= (c as u32) && (c as u32) <= 57
}

/// The number written by a sequence of decimal digits.
pub open spec fn digits_value(s: Seq<char>) -> int
    decreases s.len(),
{
    if s.len() == 0 {
        0
    } else {
        digits_value(s.drop_last()) * 10 + ((s.last() as u32) - 48)
    }
}

/// Every character of `s` is a decimal digit.
pub open spec fn all_digits(s: Seq<char>) -> bool {
    forall|i: int| 0 <= i < s.len() ==> is_digit(#[trigger] s[i])
}

/// The text after an optional leading `+`.
pub open spec fn unsigned_digits(s: Seq<char>) -> Seq<char> {
    if s.len() > 0 && s[0] == '+' {
        s.drop_first()
    } else {
        s
    }
}

/// What `u32`'s `FromStr` accepts: an optional `+` followed by one or more
/// decimal digits whose value fits in a `u32`.
pub open spec fn decimal_u32(s: Seq<char>) -> Option<u32> {
    let digits = unsigned_digits(s);
    if digits.len() > 0 && all_digits(digits) && digits_value(digits) <= u32::MAX {
        Some(digits_value(digits) as u32)
    } else {
        None
    }
}

/// A prefix of a run of decimal digits writes a number no greater than the
/// whole run, and no number written by digits is negative.
proof fn lemma_digits_value_prefix(s: Seq<char>, k: int)
    requires
        0 <= k <= s.len(),
        all_digits(s),
    ensures
        0 <= digits_value(s.take(k)) <= digits_value(s),
    decreases s.len(),
{
    if s.len() > 0 {
        let rest = s.drop_last();
        assert forall|i: int| 0 <= i < rest.len() implies is_digit(#[trigger] rest[i]) by {
            assert(rest[i] == s[i]);
        }
        assert(is_digit(s[s.len() - 1]));
        if k < s.len() {
            lemma_digits_value_prefix(rest, k);
            assert(rest.take(k) =~= s.take(k));
        } else {
            lemma_digits_value_prefix(rest, rest.len() as int);
            assert(rest.take(rest.len() as int) =~= rest);
            assert(s.take(k) =~= s);
        }
    } else {
        assert(s.take(k) =~= s);
    }
}

/// Parses a `u32` as `str::parse::<u32>` does: an optional `+` followed by
/// one or more decimal digits whose value fits in a `u32`.
fn parse_u32(s: &str) -> (r: Option<u32>)
    ensures
        r == decimal_u32(s@),
{
    let n = s.unicode_len();
    let mut start: usize = 0;
    if n > 0 && s.get_char(0) == '+' {
        start = 1;
    }
    let ghost digits = s@.subrange(start as int, n as int);
    proof {
        if start == 1 {
            assert(s@.drop_first() =~= digits);
        } else {
            assert(s@ =~= digits);
        }
    }
    if start >= n {
        return None;
    }
    let mut value: u32 = 0;
    let mut i: usize = start;
    while i < n
        invariant
            n == s@.len(),
            start <= i <= n,
            start < n,
            digits == s@.subrange(start as int, n as int),
            digits == unsigned_digits(s@),
            forall|k: int| 0 <= k < i - start ==> is_digit(#[trigger] digits[k]),
            value == digits_value(digits.take(i - start)),
        decreases n - i,
    {
        let c = s.get_char(i);
        let code = c as u32;
        assert(digits[i - start] == c);
        if code < 48 || code > 57 {
            assert(!is_digit(digits[i - start]));
            return None;
        }
        let d: u32 = code - 48;
        let ghost j: int = i - start;
        assert(digits.take(j + 1).drop_last() =~= digits.take(j));
        assert(digits.take(j + 1).last() == c);
        match value.checked_mul(10) {
            Some(tens) => match tens.checked_add(d) {
                Some(next) => {
                    value = next;
                },
                None => {
                    proof {
                        assert(digits_value(digits.take(j + 1)) == value * 10 + d);
                        if all_digits(digits) {
                            lemma_digits_value_prefix(digits, j + 1);
                        }
                    }
                    return None;
                },
            },
            None => {
                proof {
                    if all_digits(digits) {
                        lemma_digits_value_prefix(digits, j + 1);
                        lemma_digits_value_prefix(digits.take(j + 1), j);
                        assert(digits.take(j + 1).take(j) =~= digits.take(j));
                    }
                }
                return None;
            },
        }
        i = i + 1;
    }
    assert(digits.take(n - start) =~= digits);
    Some(value)
}

impl LogLevel {
    /// The lower-case name of a level.
    pub open spec fn name(self) -> Seq<char> {
        match self {
            LogLevel::Error => "error"@,
            LogLevel::Warn => "warn"@,
            LogLevel::Info => "info"@,
            LogLevel::Debug => "debug"@,
            LogLevel::Trace => "trace"@,
        }
    }

    /// The level whose lower-case name is exactly `s`, if any.
    pub open spec fn from_name(s: Seq<char>) -> Option<LogLevel> {
        if s == "error"@ {
            Some(LogLevel::Error)
        } else if s == "warn"@ {
            Some(LogLevel::Warn)
        } else if s == "info"@ {
            Some(LogLevel::Info)
        } else if s == "debug"@ {
            Some(LogLevel::Debug)
        } else if s == "trace"@ {
            Some(LogLevel::Trace)
        } else {
            None
        }
    }

    /// The level `s` denotes (its lower-case form is a level name), or the
    /// message of the configuration error for it.
    pub open spec fn parsed(s: Seq<char>) -> Result<LogLevel, Seq<char>> {
        match LogLevel::from_name(lowercase_of(s)) {
            Some(l) => Ok(l),
            None => Err("Invalid log level: "@ + s),
        }
    }

    /// The name of every level is ASCII, already lower case, and names
    /// that level only.
    pub proof fn lemma_name(self)
        ensures
            is_ascii_text(self.name()),
            ascii_lower(self.name()) == self.name(),
            LogLevel::from_name(self.name()) == Some(self),
    {
        reveal_strlit("error");
        reveal_strlit("warn");
        reveal_strlit("info");
        reveal_strlit("debug");
        reveal_strlit("trace");
        assert("error"@[0] != "debug"@[0]);
        assert("error"@[0] != "trace"@[0]);
        assert("debug"@[0] != "trace"@[0]);
        assert("warn"@[0] != "info"@[0]);
        assert(ascii_lower(self.name()) =~= self.name());
    }

    /// Parses a log level, ignoring case. Any other text is a configuration
    /// error "Invalid log level: <text>".
    pub fn from_str(s: &str) -> (r: Result<LogLevel, Error>)
        ensures
            match LogLevel::parsed(s@) {
                Ok(l) => r == Ok::<LogLevel, Error>(l),
                Err(m) => r matches Err(Error::Config(e)) && e@ == m,
            },
            is_ascii_text(s@) ==> LogLevel::from_name(ascii_lower(s@)) == LogLevel::from_name(
                lowercase_of(s@),
            ),
            forall|l: LogLevel| s@ == #[trigger] l.name() ==> r == Ok::<LogLevel, Error>(l),
    {
        let lower = to_lower(s);
        let l = lower.as_str();
        let r = if str_equal(l, "error") {
            Ok(LogLevel::Error)
        } else if str_equal(l, "warn") {
            Ok(LogLevel::Warn)
        } else if str_equal(l, "info") {
            Ok(LogLevel::Info)
        } else if str_equal(l, "debug") {
            Ok(LogLevel::Debug)
        } else if str_equal(l, "trace") {
            Ok(LogLevel::Trace)
        } else {
            Err(Error::Config(join("Invalid log level: ", s)))
        };
        assert forall|v: LogLevel| s@ == #[trigger] v.name() implies r == Ok::<LogLevel, Error>(v) by {
            v.lemma_name();
        }
        r
    }
}

/// The default configuration; `version` is the version of the package.
pub open spec fn default_config_view(version: Seq<char>) -> AppConfigView {
    AppConfigView {
        database_url: "sqlite:data/erp.db"@,
        max_connections: 5,
        timeout_seconds: 30,
        app_name: "Rust ERP"@,
        version: version,
        log_level: LogLevel::Info,
        data_dir: "data"@,
        jwt_secret: "change_me_in_production"@,
        token_expiry_hours: 24,
        hash_cost: 12,
    }
}

/// The default configuration, used when no configuration file exists;
/// `version` is the version of the package.
pub fn default_config(version: &str) -> (r: AppConfig)
    ensures
        r@ == default_config_view(version@),
{
    AppConfig {
        database: DatabaseConfig {
            url: "sqlite:data/erp.db".to_owned(),
            max_connections: 5,
            timeout_seconds: 30,
        },
        app: ApplicationConfig {
            name: "Rust ERP".to_owned(),
            version: version.to_owned(),
            log_level: LogLevel::Info,
            data_dir: "data".to_owned(),
        },
        security: SecurityConfig {
            jwt_secret: "change_me_in_production".to_owned(),
            token_expiry_hours: 24,
            hash_cost: 12,
        },
    }
}

/// A text replaced by an override where one is given.
pub open spec fn overridden(value: Seq<char>, over: Option<Seq<char>>) -> Seq<char> {
    match over {
        Some(v) => v,
        None => value,
    }
}

impl AppConfigView {
    /// The configuration after the environment overrides: the database URL,
    /// data directory and JWT secret are replaced where given; the maximum
    /// number of connections and the log level are parsed, and a value that
    /// does not parse is a configuration error (with the message given).
    pub open spec fn with_overrides(self, env: EnvOverridesView) -> Result<AppConfigView, Seq<char>> {
        if env.database_max_connections matches Some(m) && decimal_u32(m) is None {
            Err("Invalid DATABASE_MAX_CONNECTIONS value"@)
        } else if env.log_level matches Some(l) && LogLevel::parsed(l) is Err {
            Err(LogLevel::parsed(env.log_level->Some_0)->Err_0)
        } else {
            Ok(AppConfigView {
                database_url: overridden(self.database_url, env.database_url),
                max_connections: match env.database_max_connections {
                    Some(m) => decimal_u32(m)->Some_0,
                    None => self.max_connections,
                },
                log_level: match env.log_level {
                    Some(l) => LogLevel::parsed(l)->Ok_0,
                    None => self.log_level,
                },
                data_dir: overridden(self.data_dir, env.data_dir),
                jwt_secret: overridden(self.jwt_secret, env.jwt_secret),
                ..self
            })
        }
    }
}

/// No overrides in the environment leave the configuration as it is.
pub proof fn lemma_no_overrides(config: AppConfigView)
    ensures
        config.with_overrides(
            EnvOverridesView {
                database_url: None,
                database_max_connections: None,
                log_level: None,
                data_dir: None,
                jwt_secret: None,
            },
        ) == Ok::<AppConfigView, Seq<char>>(config),
{
}

/// The overrides succeed exactly when the maximum number of connections
/// and the log level, where given, parse. Then each variable that is given
/// decides its setting, independently of the others: the database URL, data
/// directory and JWT secret become the given texts, the maximum number of
/// connections the parsed number and the log level the parsed level; a
/// variable that is not given leaves its setting, and the other settings
/// stay as they were.
pub proof fn lemma_overrides_take_given_values(config: AppConfigView, env: EnvOverridesView)
    ensures
        config.with_overrides(env) is Ok <==> (
            (env.database_max_connections matches Some(m) ==> decimal_u32(m) is Some)
            && (env.log_level matches Some(l) ==> LogLevel::parsed(l) is Ok)),
        config.with_overrides(env) matches Ok(c) ==> {
            &&& (env.database_url matches Some(u) ==> c.database_url == u)
            &&& (env.database_url is None ==> c.database_url == config.database_url)
            &&& (env.database_max_connections matches Some(m) ==> Some(c.max_connections)
                == decimal_u32(m))
            &&& (env.database_max_connections is None ==> c.max_connections
                == config.max_connections)
            &&& (env.log_level matches Some(l) ==> Ok::<LogLevel, Seq<char>>(c.log_level)
                == LogLevel::parsed(l))
            &&& (env.log_level is None ==> c.log_level == config.log_level)
            &&& (env.data_dir matches Some(d) ==> c.data_dir == d)
            &&& (env.data_dir is None ==> c.data_dir == config.data_dir)
            &&& (env.jwt_secret matches Some(j) ==> c.jwt_secret == j)
            &&& (env.jwt_secret is None ==> c.jwt_secret == config.jwt_secret)
            &&& c.timeout_seconds == config.timeout_seconds
            &&& c.app_name == config.app_name
            &&& c.version == config.version
            &&& c.token_expiry_hours == config.token_expiry_hours
            &&& c.hash_cost == config.hash_cost
        },
{
}

/// Applies the environment overrides to a configuration (the decisions of
/// reading `DATABASE_URL`, `DATABASE_MAX_CONNECTIONS`, `LOG_LEVEL`,
/// `DATA_DIR` and `JWT_SECRET`).
pub fn override_with_env(config: AppConfig, env: EnvOverrides) -> (r: Result<AppConfig, Error>)
    ensures
        match config@.with_overrides(env@) {
            Ok(c) => r matches Ok(rc) && rc@ == c,
            Err(m) => r matches Err(Error::Config(e)) && e@ == m,
        },
{
    let mut config = config;
    if let Some(url) = env.database_url {
        config.database.url = url;
    }
    if let Some(max_conn) = env.database_max_connections {
        match parse_u32(max_conn.as_str()) {
            Some(v) => config.database.max_connections = v,
            None => return Err(Error::Config("Invalid DATABASE_MAX_CONNECTIONS value".to_owned())),
        }
    }
    if let Some(log_level) = env.log_level {
        match LogLevel::from_str(log_level.as_str()) {
            Ok(level) => config.app.log_level = level,
            Err(e) => return Err(e),
        }
    }
    if let Some(data_dir) = env.data_dir {
        config.app.data_dir = data_dir;
    }
    if let Some(jwt_secret) = env.jwt_secret {
        config.security.jwt_secret = jwt_secret;
    }
    Ok(config)
}

} // verus!
