//! Application configuration: plain data with algorithm defaults. Reading
//! and writing the configuration file is left to the program around the
//! library.

use vstd::prelude::*;

verus! {

/// The lower-case form of an ASCII letter; any other character is unchanged.
pub open spec fn ascii_lower_char(c: char) -> char {
    if 65 <= c as u32 && c as u32 <= 90 {
        (((c as u8) + 32) as u8) as char
    } else {
        c
    }
}

/// A character sequence with every ASCII letter lowered.
pub open spec fn ascii_lowercase(s: Seq<char>) -> Seq<char> {
    s.map_values(|c: char| ascii_lower_char(c))
}

/// Top-level configuration.
pub struct Config {
    pub port: u16,
    pub database: DatabaseConfig,
    pub tls: Option<TlsConfig>,
    pub runtime: RuntimeConfig,
    pub password: PasswordConfig,
    pub log_level: String,
}

impl Config {
    /// The log level assumed when none is configured.
    pub fn default_log_level() -> (r: String)
        ensures
            r@ == "info"@,
    {
        "info".to_owned()
    }

    /// Whether `level` names the default log level, compared without regard
    /// to ASCII case.
    pub fn log_level_is_default(level: &str) -> (r: bool)
        ensures
            r == (ascii_lowercase(level@) == "info"@),
    {
        let lowered = to_ascii_lowercase(level);
        crate::util::str_eq(lowered.as_str(), "info")
    }
}

impl Default for Config {
    /// Port 80, default store and password settings, no TLS, the default
    /// log level.
    fn default() -> (r: Self)
        ensures
            r.port == 80,
            r.database.path@ == "filite"@,
            r.database.mode == DatabaseMode::Space,
            r.database.cache_capacity == 1073741824u64,
            r.tls is None,
            r.runtime == (RuntimeConfig { core_threads: None, max_threads: None }),
            r.password == PasswordConfig::spec_default(),
            r.log_level@ == "info"@,
    {
        Config {
            port: 80,
            database: Default::default(),
            tls: None,
            runtime: Default::default(),
            password: Default::default(),
            log_level: Config::default_log_level(),
        }
    }
}

/// The lower-case form of a string, ASCII letters only.
pub fn to_ascii_lowercase(s: &str) -> (r: String)
    ensures
        r@ == ascii_lowercase(s@),
{
    let n = s.unicode_len();
    let mut out = String::new();
    let mut i: usize = 0;
    while i < n
        invariant
            n == s@.len(),
            i <= n,
            out@ == ascii_lowercase(s@.take(i as int)),
        decreases n - i,
    {
        let c = s.get_char(i);
        let lc = lower_char(c);
        crate::util::push_char(&mut out, lc);
        proof {
            assert(out@ =~= ascii_lowercase(s@.take(i + 1)));
        }
        i += 1;
    }
    proof {
        assert(s@.take(n as int) =~= s@);
    }
    out
}

/// The lower-case form of one character, ASCII letters only.
fn lower_char(c: char) -> (r: char)
    ensures
        r == ascii_lower_char(c),
{
    let u = c as u32;
    if 65 <= u && u <= 90 {
        ((u + 32) as u8) as char
    } else {
        c
    }
}

/// Certificate and private-key file locations for TLS.
pub struct TlsConfig {
    pub cert: String,
    pub key: String,
}

/// Where and how the store keeps its data.
pub struct DatabaseConfig {
    pub path: String,
    pub mode: DatabaseMode,
    pub cache_capacity: u64,
}

impl DatabaseConfig {
    /// The cache capacity assumed when none is configured: one gibibyte.
    pub fn default_cache_capacity() -> (r: u64)
        ensures
            r == 1073741824u64,
    {
        1024 * 1024 * 1024
    }

    /// Whether `cc` is the default cache capacity.
    pub fn cache_capacity_is_default(cc: &u64) -> (r: bool)
        ensures
            r == (*cc == 1073741824u64),
    {
        *cc == DatabaseConfig::default_cache_capacity()
    }

}

impl Default for DatabaseConfig {
    fn default() -> (r: Self)
        ensures
            r.path@ == "filite"@,
            r.mode == DatabaseMode::Space,
            r.cache_capacity == 1073741824u64,
    {
        DatabaseConfig {
            path: "filite".to_owned(),
            mode: Default::default(),
            cache_capacity: DatabaseConfig::default_cache_capacity(),
        }
    }
}

/// The store's trade-off between disk space and throughput.
pub enum DatabaseMode {
    Space,
    Throughput,
}

impl Default for DatabaseMode {
    fn default() -> (r: Self)
        ensures
            r == DatabaseMode::Space,
    {
        DatabaseMode::Space
    }
}

/// Thread counts for the request-handling scheduler.
pub struct RuntimeConfig {
    pub core_threads: Option<usize>,
    pub max_threads: Option<usize>,
}

impl Default for RuntimeConfig {
    fn default() -> (r: Self)
        ensures
            r == (RuntimeConfig { core_threads: None, max_threads: None }),
    {
        RuntimeConfig { core_threads: None, max_threads: None }
    }
}

/// Parameters of the password hash; each unset parameter takes the
/// algorithm default.
pub struct PasswordConfig {
    pub hash_length: Option<u32>,
    pub salt_length: Option<usize>,
    pub lanes: Option<u32>,
    pub memory_cost: Option<u32>,
    pub time_cost: Option<u32>,
    pub secret: Option<String>,
}

impl PasswordConfig {
    /// The all-defaults value.
    pub open spec fn spec_default() -> PasswordConfig {
        PasswordConfig {
            hash_length: None,
            salt_length: None,
            lanes: None,
            memory_cost: None,
            time_cost: None,
            secret: None,
        }
    }
}

impl Default for PasswordConfig {
    fn default() -> (r: Self)
        ensures
            r == PasswordConfig::spec_default(),
    {
        PasswordConfig {
            hash_length: None,
            salt_length: None,
            lanes: None,
            memory_cost: None,
            time_cost: None,
            secret: None,
        }
    }
}

} // verus!
